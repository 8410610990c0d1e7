use std::sync::Arc;

use tuyau::ids::{RoomAlias, ServerName, UserIdent};
use tuyau::worker::Executor;

fn context() -> Executor<u32> {
    Executor::new(
        Arc::new(7),
        RoomAlias::parse("#stokejo:stokejo.com").unwrap(),
        UserIdent::parse("@mekosko:morojenoye.com").unwrap(),
    )
    .unwrap()
}

#[test]
fn executor_new_keeps_alias_and_admin() {
    let ctx = context();
    assert_eq!(ctx.alias.as_str(), "#stokejo:stokejo.com");
    assert_eq!(ctx.admin.as_str(), "@mekosko:morojenoye.com");
    assert_eq!(*ctx.keyserver.state, 7);
    assert_eq!(*ctx.state.state, 7);
    assert_eq!(*ctx.timeline.state, 7);
    assert!(Arc::ptr_eq(&ctx.keyserver.state, &ctx.timeline.state));
}

#[test]
fn executor_new_creates_room_on_alias_server() {
    let ctx = context();
    let id = ctx.ident.as_str();
    assert!(id.starts_with('!'));
    assert!(id.ends_with(":stokejo.com"));
    assert_eq!(id.len(), 1 + 18 + 1 + "stokejo.com".len());
}

#[test]
fn executor_server_name_is_alias_server() {
    let ctx = context();
    assert_eq!(ctx.server_name().as_str(), "stokejo.com");
}

#[test]
fn key_server_url_uses_host_and_federation_port() {
    let ctx = context();
    let url = ctx.keyserver.url(&ServerName::parse("example.org").unwrap());
    assert_eq!(url, "https://example.org:8448/_matrix/key/v2/server");
    let url = ctx.keyserver.url(&ServerName::parse("example.org:1234").unwrap());
    assert_eq!(url, "https://example.org:8448/_matrix/key/v2/server");
    let url = ctx.keyserver.url(&ServerName::parse("[::1]:1234").unwrap());
    assert_eq!(url, "https://[::1]:8448/_matrix/key/v2/server");
}
