use potato_plant_replay::view_session::LobbyHandler;

#[test]
fn created_name_resolves_to_returned_id() {
    let mut reg = LobbyHandler::new();
    let id = reg.create_or_get_lobby_uuid("alpha");
    assert_eq!(reg.get_lobby_uuid("alpha"), Some(id));
}

#[test]
fn create_or_get_twice_returns_same_id() {
    let mut reg = LobbyHandler::new();
    let a = reg.create_or_get_lobby_uuid("alpha");
    let b = reg.create_or_get_lobby_uuid("alpha");
    assert_eq!(a, b);
    let c = reg.create_or_get_lobby_uuid("beta");
    assert_ne!(a, c);
    assert_eq!(reg.get_lobby_uuid("alpha"), Some(a));
    assert_eq!(reg.get_lobby_uuid("beta"), Some(c));
}

#[test]
fn unknown_key_resolves_to_nothing() {
    let mut reg = LobbyHandler::new();
    assert_eq!(reg.get_lobby_uuid("nobody"), None);
    assert_eq!(reg.get_lobby_uuid(""), None);
    reg.create_or_get_lobby_uuid("alpha");
    assert_eq!(reg.get_lobby_uuid("alph"), None);
    assert_eq!(reg.get_lobby_uuid("alpha "), None);
    assert_eq!(reg.get_lobby_uuid("00000000-0000-0000-0000-000000000000"), None);
}

#[test]
fn identifier_text_resolves_to_identifier() {
    let mut reg = LobbyHandler::new();
    let id = reg.create_or_get_lobby_uuid("alpha");
    let text = uuid::Uuid::from_u128(id).to_string();
    assert_eq!(reg.get_lobby_uuid(&text), Some(id));
    assert_eq!(reg.get_lobby_uuid(&text.to_uppercase()), Some(id));
    assert_eq!(reg.get_lobby_uuid(&format!("{{{}}}", text)), Some(id));
    assert_eq!(reg.get_lobby_uuid(&text.replace('-', "")), Some(id));
    assert_eq!(reg.create_or_get_lobby_uuid(&text), id);
}

#[test]
fn lobby_id_text_is_hyphenated_lowercase_hex() {
    let mut reg = LobbyHandler::new();
    let id = reg.create_or_get_lobby_uuid("alpha");
    let text = reg.lobby_id_text(id);
    assert_eq!(text.len(), 36);
    assert_eq!(text, uuid::Uuid::from_u128(id).hyphenated().to_string());
    assert_ne!(text, id.to_string());
    for (i, c) in text.chars().enumerate() {
        if i == 8 || i == 13 || i == 18 || i == 23 {
            assert_eq!(c, '-');
        } else {
            assert!(c.is_ascii_hexdigit() && !c.is_ascii_uppercase());
        }
    }
}

#[test]
fn new_identifiers_are_version_four() {
    let mut reg = LobbyHandler::new();
    let id = reg.create_or_get_lobby_uuid("alpha");
    assert_eq!(uuid::Uuid::from_u128(id).get_version_num(), 4);
}

#[test]
fn name_shaped_like_identifier_is_a_name() {
    let mut reg = LobbyHandler::new();
    let name = "11111111-2222-3333-4444-555555555555";
    let id = reg.create_or_get_lobby_uuid(name);
    assert_ne!(id, 0x11111111222233334444555555555555);
    assert_eq!(reg.get_lobby_uuid(name), Some(id));
    assert_eq!(reg.create_or_get_lobby_uuid(name), id);
}

#[test]
fn name_keeps_its_lobby_across_other_creations() {
    let mut reg = LobbyHandler::new();
    let name = "11111111-2222-3333-4444-555555555555";
    let first = reg.create_or_get_lobby_uuid(name);
    let mut others = Vec::new();
    for i in 0..50 {
        others.push(reg.create_or_get_lobby_uuid(&format!("lobby{}", i)));
    }
    assert!(!others.contains(&first));
    assert!(!others.contains(&0x11111111222233334444555555555555));
    assert_eq!(reg.create_or_get_lobby_uuid(name), first);
    assert_eq!(reg.get_lobby_uuid(name), Some(first));
}
