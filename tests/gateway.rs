use potato_plant_replay::responses::{LobbyCreated, Response, WebSocketFailedConnection};
use potato_plant_replay::view_session::LobbyHandler;
use potato_plant_replay::view_session_service::{
    gate_upgrade, handle_http_post, route, stream_step, CreateLobby, HttpMethod, PostReply, Route,
    StreamAction, StreamEvent, StreamState,
};

fn refusal_message(r: Result<u128, Response<WebSocketFailedConnection>>) -> String {
    match r {
        Err(Response::ClientError((400, Some(f)))) => {
            assert!(!f.valid);
            f.message
        }
        Err(_) => panic!("refusal of the wrong class"),
        Ok(_) => panic!("upgrade was not refused"),
    }
}

fn created(r: PostReply) -> LobbyCreated {
    match r {
        PostReply::Created(Response::Success((201, Some(c)))) => c,
        _ => panic!("not a 201 lobby report"),
    }
}

fn create_body(lobby_id: &str, mission_id: &str) -> Option<CreateLobby> {
    Some(CreateLobby { lobby_id: lobby_id.to_string(), mission_id: mission_id.to_string() })
}

#[test]
fn upgrade_without_query_is_refused() {
    let reg = LobbyHandler::new();
    assert_eq!(refusal_message(gate_upgrade(&reg, None)), "No query parameters");
}

#[test]
fn upgrade_without_lobby_key_is_refused() {
    let reg = LobbyHandler::new();
    assert_eq!(refusal_message(gate_upgrade(&reg, Some("lobby=alpha"))), "Bad query parameters");
    assert_eq!(refusal_message(gate_upgrade(&reg, Some(""))), "Bad query parameters");
}

#[test]
fn upgrade_for_unknown_lobby_is_refused() {
    let reg = LobbyHandler::new();
    assert_eq!(
        refusal_message(gate_upgrade(&reg, Some("lobby-id=doesnotexist"))),
        "No lobby exists with provided ID"
    );
}

#[test]
fn upgrade_for_named_lobby_is_accepted() {
    let mut reg = LobbyHandler::new();
    let id = reg.create_or_get_lobby_uuid("alpha");
    assert_eq!(gate_upgrade(&reg, Some("lobby-id=alpha")).ok(), Some(id));
    let text = reg.lobby_id_text(id);
    let q = format!("x=1&lobby-id={}", text);
    assert_eq!(gate_upgrade(&reg, Some(&q)).ok(), Some(id));
}

#[test]
fn create_lobby_reports_identifier() {
    let mut reg = LobbyHandler::new();
    let c = created(handle_http_post(&mut reg, "/create_lobby", create_body("alpha", "m1")));
    assert!(c.valid);
    let id = reg.get_lobby_uuid("alpha").unwrap();
    assert_eq!(c.lobby_id, uuid::Uuid::from_u128(id).to_string());
    let again = created(handle_http_post(&mut reg, "/create_lobby", create_body("alpha", "m2")));
    assert!(again.valid);
    assert_eq!(again.lobby_id, c.lobby_id);
}

#[test]
fn create_lobby_rejects_non_ascii() {
    let mut reg = LobbyHandler::new();
    let c = created(handle_http_post(&mut reg, "/create_lobby", create_body("\u{e9}", "m1")));
    assert!(!c.valid);
    assert_eq!(c.lobby_id, "");
    assert_eq!(reg.get_lobby_uuid("\u{e9}"), None);
    let m = created(handle_http_post(&mut reg, "/create_lobby", create_body("alpha", "m\u{e9}")));
    assert!(!m.valid);
    assert_eq!(reg.get_lobby_uuid("alpha"), None);
}

#[test]
fn malformed_post_body_is_bad_request() {
    let mut reg = LobbyHandler::new();
    assert!(matches!(handle_http_post(&mut reg, "/create_lobby", None), PostReply::Status(400)));
    assert!(matches!(handle_http_post(&mut reg, "/other", None), PostReply::Status(501)));
}

#[test]
fn create_lobby_rejects_empty_name() {
    let mut reg = LobbyHandler::new();
    let c = created(handle_http_post(&mut reg, "/create_lobby", create_body("", "m1")));
    assert!(!c.valid);
    assert_eq!(c.lobby_id, "");
    assert_eq!(reg.get_lobby_uuid(""), None);
}

#[test]
fn post_to_other_path_is_not_implemented() {
    let mut reg = LobbyHandler::new();
    let r = handle_http_post(&mut reg, "/create_lobby/", create_body("alpha", "m1"));
    assert!(matches!(r, PostReply::Status(501)));
    assert_eq!(reg.get_lobby_uuid("alpha"), None);
}

#[test]
fn requests_are_routed_by_upgrade_and_method() {
    assert_eq!(route(true, HttpMethod::Get), Route::Upgrade);
    assert_eq!(route(true, HttpMethod::Other), Route::Upgrade);
    assert_eq!(route(false, HttpMethod::Get), Route::Static);
    assert_eq!(route(false, HttpMethod::Post), Route::Post);
    assert_eq!(route(false, HttpMethod::Other), Route::NotFound);
}

#[test]
fn stream_runs_until_a_failure() {
    let (s, a) = stream_step(StreamState::AwaitingHandshake, StreamEvent::IntervalElapsed);
    assert_eq!((s, a), (StreamState::AwaitingHandshake, StreamAction::Wait));
    let (s, a) = stream_step(s, StreamEvent::HandshakeCompleted);
    assert_eq!((s, a), (StreamState::Streaming, StreamAction::Wait));
    let (s, a) = stream_step(s, StreamEvent::IntervalElapsed);
    assert_eq!((s, a), (StreamState::Streaming, StreamAction::Send));
    let (s, a) = stream_step(s, StreamEvent::IntervalElapsed);
    assert_eq!((s, a), (StreamState::Streaming, StreamAction::Send));
    let (s, a) = stream_step(s, StreamEvent::SendFailed);
    assert_eq!((s, a), (StreamState::Closed, StreamAction::Stop));
    let (s, a) = stream_step(s, StreamEvent::HandshakeCompleted);
    assert_eq!((s, a), (StreamState::Closed, StreamAction::Stop));
    let (s, a) = stream_step(StreamState::AwaitingHandshake, StreamEvent::HandshakeFailed);
    assert_eq!((s, a), (StreamState::Closed, StreamAction::Stop));
}
