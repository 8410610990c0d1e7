use tuyau::ids::{IdError, RoomAlias, RoomIdent, ServerName, UserIdent};

#[test]
fn room_alias_parses_and_keeps_its_text() {
    let alias = RoomAlias::parse("#room:example.org").unwrap();
    assert_eq!(alias.as_str(), "#room:example.org");
    assert_eq!(alias.server_name().as_str(), "example.org");
}

#[test]
fn room_alias_server_keeps_port() {
    let alias = RoomAlias::parse("#room:example.org:8448").unwrap();
    assert_eq!(alias.server_name().as_str(), "example.org:8448");
}

#[test]
fn room_alias_errors() {
    assert_eq!(RoomAlias::parse("room:example.org").unwrap_err(), IdError::MissingLeadingSigil);
    assert_eq!(RoomAlias::parse("").unwrap_err(), IdError::MissingLeadingSigil);
    assert_eq!(RoomAlias::parse("#room").unwrap_err(), IdError::MissingColon);
    assert_eq!(RoomAlias::parse("#room:exa mple.org").unwrap_err(), IdError::InvalidServerName);
    assert_eq!(RoomAlias::parse("#room:").unwrap_err(), IdError::InvalidServerName);
    let long = format!("#{}:example.org", "a".repeat(250));
    assert_eq!(RoomAlias::parse(&long).unwrap_err(), IdError::MaximumLengthExceeded);
}

#[test]
fn room_alias_same() {
    let a = RoomAlias::parse("#room:example.org").unwrap();
    let b = RoomAlias::parse("#room:example.org").unwrap();
    let c = RoomAlias::parse("#other:example.org").unwrap();
    assert!(a.same(&b));
    assert!(!a.same(&c));
}

#[test]
fn user_id_parses() {
    let user = UserIdent::parse("@admin:example.org").unwrap();
    assert_eq!(user.as_str(), "@admin:example.org");
    // historical localparts (upper case) are accepted
    assert!(UserIdent::parse("@Admin:example.org").is_ok());
}

#[test]
fn user_id_errors() {
    assert_eq!(UserIdent::parse("admin:example.org").unwrap_err(), IdError::MissingLeadingSigil);
    assert_eq!(UserIdent::parse("@admin").unwrap_err(), IdError::MissingColon);
    assert_eq!(UserIdent::parse("@:example.org").unwrap_err(), IdError::InvalidCharacters);
    assert_eq!(UserIdent::parse("@ad min:example.org").unwrap_err(), IdError::InvalidCharacters);
    assert_eq!(UserIdent::parse("@admïn:example.org").unwrap_err(), IdError::InvalidCharacters);
    assert_eq!(UserIdent::parse("@admin:bad_host").unwrap_err(), IdError::InvalidServerName);
}

#[test]
fn room_id_parses_and_errors() {
    let id = RoomIdent::parse("!abc:example.org").unwrap();
    assert_eq!(id.as_str(), "!abc:example.org");
    // a room id needs no server part
    assert!(RoomIdent::parse("!abc").is_ok());
    assert_eq!(RoomIdent::parse("abc:example.org").unwrap_err(), IdError::MissingLeadingSigil);
    let long = format!("!{}", "a".repeat(255));
    assert_eq!(RoomIdent::parse(&long).unwrap_err(), IdError::MaximumLengthExceeded);
}

#[test]
fn server_name_parses_and_errors() {
    assert_eq!(ServerName::parse("example.org").unwrap().as_str(), "example.org");
    assert!(ServerName::parse("[::1]:8448").is_ok());
    assert!(ServerName::parse("127.0.0.1").is_ok());
    assert_eq!(ServerName::parse("").unwrap_err(), IdError::InvalidServerName);
    assert_eq!(ServerName::parse("example.org:port").unwrap_err(), IdError::InvalidServerName);
    assert_eq!(ServerName::parse("[::1").unwrap_err(), IdError::InvalidServerName);
}

#[test]
fn server_name_port_rules() {
    assert!(ServerName::parse("example.org:8448").is_ok());
    assert!(ServerName::parse("example.org:+8448").is_ok());
    assert!(ServerName::parse("example.org:65535").is_ok());
    assert!(ServerName::parse("example.org:0").is_ok());
    assert_eq!(ServerName::parse("example.org:65536").unwrap_err(), IdError::InvalidServerName);
    assert_eq!(ServerName::parse("example.org:").unwrap_err(), IdError::InvalidServerName);
    assert_eq!(ServerName::parse("example.org:-1").unwrap_err(), IdError::InvalidServerName);
    assert_eq!(ServerName::parse("[::1]x").unwrap_err(), IdError::InvalidServerName);
    assert_eq!(ServerName::parse("[::1]:99999").unwrap_err(), IdError::InvalidServerName);
    assert_eq!(ServerName::parse("[not-ipv6]").unwrap_err(), IdError::InvalidServerName);
    assert_eq!(ServerName::parse("exa_mple.org").unwrap_err(), IdError::InvalidServerName);
    assert_eq!(ServerName::parse("exämple.org").unwrap_err(), IdError::InvalidServerName);
}

#[test]
fn server_name_host() {
    assert_eq!(ServerName::parse("example.org:8448").unwrap().host(), "example.org");
    assert_eq!(ServerName::parse("example.org").unwrap().host(), "example.org");
    assert_eq!(ServerName::parse("[::1]:8448").unwrap().host(), "[::1]");
    assert_eq!(ServerName::parse("[::1]").unwrap().host(), "[::1]");
}

#[test]
fn server_name_same() {
    let a = ServerName::parse("example.org").unwrap();
    let b = ServerName::parse("example.org").unwrap();
    let c = ServerName::parse("example.org:8448").unwrap();
    assert!(a.same(&b));
    assert!(!a.same(&c));
}

#[test]
fn generated_room_id_lives_on_its_server() {
    let server = ServerName::parse("example.org").unwrap();
    let id = RoomIdent::generate(&server);
    let text = id.as_str();
    assert_eq!(text.len(), 1 + 18 + 1 + "example.org".len());
    assert!(text.starts_with('!'));
    assert!(text.ends_with(":example.org"));
    assert!(text[1..19].chars().all(|c| c.is_ascii_alphanumeric()));
    // the server part of the id is the server it was made for
    let colon = text.find(':').unwrap();
    assert_eq!(&text[colon + 1..], "example.org");
}

#[test]
fn generated_room_ids_differ() {
    let server = ServerName::parse("example.org").unwrap();
    let a = RoomIdent::generate(&server);
    let b = RoomIdent::generate(&server);
    assert_ne!(a.as_str(), b.as_str());
}
