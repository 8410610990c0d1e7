//! The federation routes and what they answer.

pub mod extract;
pub mod reply;

use vstd::prelude::*;

use crate::ids::{server_part, RoomAlias, RoomIdent, ServerName};
use crate::router::extract::MApi;
use crate::router::reply::{ErrorKind, MApiError, MApiReply};
use crate::worker::Executor;

verus! {

/// A room directory query: which room an alias names.
#[derive(Debug)]
pub struct GetRoomInfoRequest {
    pub room_alias: RoomAlias,
}

/// The answer to a room directory query: the room id and the servers that
/// know the room.
#[derive(Debug)]
pub struct GetRoomInfoReply {
    pub room_id: RoomIdent,
    pub servers: Vec<ServerName>,
}

/// Answers a room directory query: the hosted room's alias gives its id and
/// this server as the only server that knows it; any other alias is not
/// found.
pub fn get_room_information_route<T>(
    context: Executor<T>,
    req: MApi<GetRoomInfoRequest>,
) -> (r: Result<MApiReply<GetRoomInfoReply>, MApiError<ErrorKind>>)
    ensures
        req.body.room_alias@ != context.alias@ ==> (r matches Err(MApiError(e)) && e
            == ErrorKind::NotFound),
        req.body.room_alias@ == context.alias@ ==> (r matches Ok(MApiReply(reply)) && {
            &&& reply.room_id@ == context.ident@
            &&& reply.servers@.len() == 1
            &&& reply.servers@[0]@ == server_part(context.alias@)
        }),
{
    if !req.body.room_alias.same(&context.alias) {
        return Err(MApiError(ErrorKind::NotFound));
    }
    let server = context.server_name();
    let mut servers: Vec<ServerName> = Vec::new();
    servers.push(server);
    Ok(MApiReply(GetRoomInfoReply { room_id: context.ident, servers }))
}

} // verus!
