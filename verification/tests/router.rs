use std::sync::Arc;

use tuyau::ids::{RoomAlias, UserIdent};
use tuyau::router::extract::MApi;
use tuyau::router::reply::{ErrorKind, MApiError, MApiReply};
use tuyau::router::{get_room_information_route, GetRoomInfoRequest};
use tuyau::worker::Executor;

fn context() -> Executor<()> {
    Executor::new(
        Arc::new(()),
        RoomAlias::parse("#stokejo:stokejo.com").unwrap(),
        UserIdent::parse("@mekosko:morojenoye.com").unwrap(),
    )
    .unwrap()
}

fn query(alias: &str) -> MApi<GetRoomInfoRequest> {
    MApi { body: GetRoomInfoRequest { room_alias: RoomAlias::parse(alias).unwrap() } }
}

#[test]
fn directory_answers_hosted_alias() {
    let ctx = context();
    let ident = ctx.ident.as_str().to_string();
    let MApiReply(reply) = get_room_information_route(ctx, query("#stokejo:stokejo.com")).unwrap();
    assert_eq!(reply.room_id.as_str(), ident);
    assert_eq!(reply.servers.len(), 1);
    assert_eq!(reply.servers[0].as_str(), "stokejo.com");
    // the listed server hosts the room id
    assert!(reply.room_id.as_str().ends_with(":stokejo.com"));
}

#[test]
fn directory_refuses_other_alias() {
    let r = get_room_information_route(context(), query("#other:stokejo.com"));
    assert!(matches!(r, Err(MApiError(ErrorKind::NotFound))));
    let r = get_room_information_route(context(), query("#stokejo:elsewhere.com"));
    assert!(matches!(r, Err(MApiError(ErrorKind::NotFound))));
}

#[test]
fn error_status_codes() {
    assert_eq!(MApiError(ErrorKind::Forbidden).status_code(), 403);
    assert_eq!(MApiError(ErrorKind::Unauthorized).status_code(), 401);
    assert_eq!(MApiError(ErrorKind::TooLarge).status_code(), 413);
    assert_eq!(MApiError(ErrorKind::BadJson).status_code(), 400);
    assert_eq!(MApiError(ErrorKind::NotFound).status_code(), 404);
}
