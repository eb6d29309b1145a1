//! The connection gateway: the decisions taken on each inbound request.
//!
//! The transport reads a request, asks this module what to do, and carries
//! the answer out: it serves a static reply, sends a typed result, or
//! upgrades the connection and runs the streaming loop step by step.
use vstd::prelude::*;

use crate::lobby_id::hyphenated_text;
use crate::responses::{
    build_response, LobbyCreated, Response, WebSocketFailedConnection, BAD_REQUEST,
    CREATED, NOT_IMPLEMENTED,
};
use crate::utils::{query_params, query_to_hash_map};
use crate::view_session::LobbyHandler;

verus! {

/// The body of a request to create a lobby.
pub struct CreateLobby {
    pub lobby_id: String,
    pub mission_id: String,
}

#[derive(PartialEq, Eq, Structural, Clone, Copy, Debug)]
pub enum HttpMethod {
    Get,
    Post,
    Other,
}

/// Where a request goes.
#[derive(PartialEq, Eq, Structural, Clone, Copy, Debug)]
pub enum Route {
    /// A streaming upgrade, to be gated with `gate_upgrade`.
    Upgrade,
    /// A static asset, served by path.
    Static,
    /// A lobby-management call, handled by `handle_http_post`.
    Post,
    /// Nothing: the not-found page.
    NotFound,
}

pub open spec fn route_spec(is_upgrade: bool, method: HttpMethod) -> Route {
    if is_upgrade {
        Route::Upgrade
    } else {
        match method {
            HttpMethod::Get => Route::Static,
            HttpMethod::Post => Route::Post,
            HttpMethod::Other => Route::NotFound,
        }
    }
}

pub fn route(is_upgrade: bool, method: HttpMethod) -> (r: Route)
    ensures
        r == route_spec(is_upgrade, method),
{
    if is_upgrade {
        Route::Upgrade
    } else {
        match method {
            HttpMethod::Get => Route::Static,
            HttpMethod::Post => Route::Post,
            HttpMethod::Other => Route::NotFound,
        }
    }
}

pub open spec fn lobby_key() -> Seq<char> {
    "lobby-id"@
}

/// Why an upgrade is refused, or the lobby it is for.
pub open spec fn upgrade_outcome(reg: LobbyHandler, query: Option<Seq<char>>) -> Result<
    u128,
    Seq<char>,
> {
    match query {
        None => Err("No query parameters"@),
        Some(q) => {
            let params = query_params(Some(q));
            if !params.contains_key(lobby_key()) {
                Err("Bad query parameters"@)
            } else {
                match reg.resolve_spec(params[lobby_key()]) {
                    Some(id) => Ok(id),
                    None => Err("No lobby exists with provided ID"@),
                }
            }
        },
    }
}

/// `r` is a refusal with status 400 and message `msg`.
pub open spec fn is_refusal(r: Response<WebSocketFailedConnection>, msg: Seq<char>) -> bool {
    &&& r is ClientError
    &&& r.parts().0 == BAD_REQUEST
    &&& r.parts().1 matches Some(f) && !f.valid && f.message@ == msg
}

fn refuse(msg: &str) -> (r: Response<WebSocketFailedConnection>)
    ensures
        is_refusal(r, msg@),
{
    build_response(WebSocketFailedConnection::new(msg), BAD_REQUEST)
}

/// Decides an upgrade request: the lobby that the query's `lobby-id` names,
/// or the refusal to send instead of upgrading.
pub fn gate_upgrade(lobbies: &LobbyHandler, query: Option<&str>) -> (r: Result<
    u128,
    Response<WebSocketFailedConnection>,
>)
    requires
        lobbies.wf(),
    ensures
        match upgrade_outcome(
            *lobbies,
            match query {
                Some(q) => Some(q@),
                None => None,
            },
        ) {
            Ok(id) => r == Ok::<u128, Response<WebSocketFailedConnection>>(id),
            Err(msg) => r matches Err(resp) && is_refusal(resp, msg),
        },
{
    if query.is_none() {
        return Err(refuse("No query parameters"));
    }
    let queries = query_to_hash_map(query);
    let lobby_str = match queries.get("lobby-id") {
        Some(s) => s,
        None => {
            return Err(refuse("Bad query parameters"));
        },
    };
    match lobbies.get_lobby_uuid(lobby_str.as_str()) {
        Some(id) => Ok(id),
        None => Err(refuse("No lobby exists with provided ID")),
    }
}

/// The reply to a lobby-management call.
pub enum PostReply {
    /// A typed result.
    Created(Response<LobbyCreated>),
    /// A status with an empty body.
    Status(u16),
}

pub open spec fn create_lobby_path() -> Seq<char> {
    "/create_lobby"@
}

/// `r` reports, with status 201, a lobby created or found, or a rejection.
pub open spec fn reports_lobby(r: PostReply, valid: bool, lobby_id: Seq<char>) -> bool {
    &&& r matches PostReply::Created(resp)
    &&& resp is Success
    &&& resp.parts().0 == CREATED
    &&& resp.parts().1 matches Some(c) && c.valid == valid && c.lobby_id@ == lobby_id
}

/// The registry goes from `before` to `after` and `r` is sent, on a
/// request to create the lobby of `p`: an empty name, and names and mission
/// identifiers that are not ASCII, are rejected and change nothing; otherwise
/// the lobby of the name is created or found, and its identifier reported.
pub open spec fn create_lobby_reply(
    before: LobbyHandler,
    after: LobbyHandler,
    p: CreateLobby,
    r: PostReply,
) -> bool {
    if p.lobby_id@.len() > 0 && p.lobby_id.is_ascii() && p.mission_id.is_ascii() {
        &&& after.resolve_spec(p.lobby_id@) matches Some(id)
        &&& before.created_or_got(p.lobby_id@, &after, id)
        &&& reports_lobby(r, true, hyphenated_text(id))
    } else {
        &&& after == before
        &&& reports_lobby(r, false, Seq::empty())
    }
}

/// Handles a lobby-management call on `path`, whose body parsed to `params`
/// (`None`: the body was not a `CreateLobby`). Only `/create_lobby` is
/// implemented, and only there is the body read.
pub fn handle_http_post(lobbies: &mut LobbyHandler, path: &str, params: Option<CreateLobby>) -> (r:
    PostReply)
    requires
        old(lobbies).wf(),
    ensures
        final(lobbies).wf(),
        if path@ != create_lobby_path() {
            r == PostReply::Status(NOT_IMPLEMENTED) && *final(lobbies) == *old(lobbies)
        } else {
            match params {
                None => r == PostReply::Status(BAD_REQUEST) && *final(lobbies) == *old(lobbies),
                Some(p) => create_lobby_reply(*old(lobbies), *final(lobbies), p, r),
            }
        },
{
    if !str_eq(path, "/create_lobby") {
        return PostReply::Status(NOT_IMPLEMENTED);
    }
    let lobby_params = match params {
        Some(p) => p,
        None => {
            return PostReply::Status(BAD_REQUEST);
        },
    };
    let mut status = LobbyCreated { valid: false, lobby_id: String::new() };
    if lobby_params.lobby_id.unicode_len() > 0 && lobby_params.lobby_id.is_ascii()
        && lobby_params.mission_id.is_ascii() {
        let id = lobbies.create_or_get_lobby_uuid(lobby_params.lobby_id.as_str());
        status.valid = true;
        status.lobby_id = lobbies.lobby_id_text(id);
    }
    PostReply::Created(build_response(status, CREATED))
}

/// The time between two updates of a streaming connection.
pub const UPDATE_INTERVAL_MS: u64 = 500;

/// The text of an update pushed to a spectator.
pub const UPDATE_TEXT: &'static str = "Test";

/// The life of a streaming connection.
#[derive(PartialEq, Eq, Structural, Clone, Copy, Debug)]
pub enum StreamState {
    AwaitingHandshake,
    Streaming,
    Closed,
}

/// What the transport reports to the streaming loop.
#[derive(PartialEq, Eq, Structural, Clone, Copy, Debug)]
pub enum StreamEvent {
    HandshakeCompleted,
    HandshakeFailed,
    IntervalElapsed,
    SendFailed,
}

/// What the streaming loop asks of the transport next.
#[derive(PartialEq, Eq, Structural, Clone, Copy, Debug)]
pub enum StreamAction {
    /// Wait for the next event.
    Wait,
    /// Push an update (`UPDATE_TEXT`), then wait for the next interval.
    Send,
    /// Close the connection and end the loop.
    Stop,
}

/// One step of the streaming loop: the handshake opens the stream, every
/// elapsed interval pushes an update, and a failed handshake or write
/// closes it for good.
pub open spec fn stream_step_spec(state: StreamState, event: StreamEvent) -> (StreamState, StreamAction) {
    match (state, event) {
        (StreamState::Closed, _) => (StreamState::Closed, StreamAction::Stop),
        (_, StreamEvent::HandshakeFailed) => (StreamState::Closed, StreamAction::Stop),
        (_, StreamEvent::SendFailed) => (StreamState::Closed, StreamAction::Stop),
        (StreamState::AwaitingHandshake, StreamEvent::HandshakeCompleted) => (
            StreamState::Streaming,
            StreamAction::Wait,
        ),
        (StreamState::Streaming, StreamEvent::IntervalElapsed) => (
            StreamState::Streaming,
            StreamAction::Send,
        ),
        (s, _) => (s, StreamAction::Wait),
    }
}

pub fn stream_step(state: StreamState, event: StreamEvent) -> (r: (StreamState, StreamAction))
    ensures
        r == stream_step_spec(state, event),
        r.1 == StreamAction::Send ==> state == StreamState::Streaming,
        r.0 == StreamState::Closed <==> r.1 == StreamAction::Stop,
{
    match (state, event) {
        (StreamState::Closed, _) => (StreamState::Closed, StreamAction::Stop),
        (_, StreamEvent::HandshakeFailed) => (StreamState::Closed, StreamAction::Stop),
        (_, StreamEvent::SendFailed) => (StreamState::Closed, StreamAction::Stop),
        (StreamState::AwaitingHandshake, StreamEvent::HandshakeCompleted) => (
            StreamState::Streaming,
            StreamAction::Wait,
        ),
        (StreamState::Streaming, StreamEvent::IntervalElapsed) => (
            StreamState::Streaming,
            StreamAction::Send,
        ),
        (s, _) => (s, StreamAction::Wait),
    }
}

/// Whether two texts are equal.
fn str_eq(a: &str, b: &str) -> (r: bool)
    ensures
        r == (a@ == b@),
{
    let n = a.unicode_len();
    if n != b.unicode_len() {
        return false;
    }
    let mut i: usize = 0;
    while i < n
        invariant
            n == a@.len() == b@.len(),
            i <= n,
            forall|j: int| 0 <= j < i ==> a@[j] == b@[j],
        decreases n - i,
    {
        if a.get_char(i) != b.get_char(i) {
            return false;
        }
        i = i + 1;
    }
    assert(a@ =~= b@);
    true
}

} // verus!
