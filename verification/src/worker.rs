//! The room context that the routes work in, and the executors that reach
//! the storage.

pub mod keyserver;
pub mod setup;
pub mod state;
pub mod timeline;

use std::sync::Arc;
use vstd::prelude::*;

use crate::ids::{generated_room_id, lemma_generated_room_id_server, server_part, RoomAlias, RoomIdent, ServerName, UserIdent};

verus! {

/// Declares `anyhow::Error`, the error type of `Executor::new` (which never
/// returns it); Verus sees nothing inside it.
#[verifier::external_type_specification]
#[verifier::external_body]
pub struct ExAnyhowError(anyhow::Error);

/// Calls `Arc::clone`, which gives another handle to the same value.
#[verifier::external_body]
pub(crate) fn share<T>(state: &Arc<T>) -> (r: Arc<T>)
    ensures
        r == *state,
{
    state.clone()
}

/// The room this server hosts, with the executors that reach its storage.
pub struct Executor<T> {
    pub keyserver: keyserver::Executor<T>,
    pub state: state::Executor<T>,
    pub timeline: timeline::Executor<T>,
    pub alias: RoomAlias,
    pub admin: UserIdent,
    pub ident: RoomIdent,
}

impl<T> Clone for Executor<T> {
    fn clone(&self) -> (r: Self)
        ensures
            r.keyserver.state == self.keyserver.state,
            r.state.state == self.state.state,
            r.timeline.state == self.timeline.state,
            r.alias@ == self.alias@,
            r.admin@ == self.admin@,
            r.ident@ == self.ident@,
    {
        Executor {
            keyserver: self.keyserver.clone(),
            state: self.state.clone(),
            timeline: self.timeline.clone(),
            alias: self.alias.clone(),
            admin: self.admin.clone(),
            ident: self.ident.clone(),
        }
    }
}

impl<T> Executor<T> {
    /// Sets up the room `alias`, administered by `admin`: every executor
    /// shares `state`, and the room gets a fresh id on the alias's server.
    pub fn new(state: Arc<T>, alias: RoomAlias, admin: UserIdent) -> (r: Result<Self, anyhow::Error>)
        ensures
            r matches Ok(e) && {
                &&& e.keyserver.state == state
                &&& e.state.state == state
                &&& e.timeline.state == state
                &&& e.alias@ == alias@
                &&& e.admin@ == admin@
                &&& generated_room_id(e.ident@, server_part(alias@))
                &&& server_part(e.ident@) == server_part(alias@)
            },
    {
        let server = alias.server_name();
        let ident = RoomIdent::generate(&server);
        proof {
            lemma_generated_room_id_server(ident@, server@);
        }
        Ok(Executor {
            keyserver: keyserver::Executor { state: share(&state) },
            state: state::Executor { state: share(&state) },
            timeline: timeline::Executor { state: share(&state) },
            alias,
            admin,
            ident,
        })
    }

    /// The name of this server: the server of the room alias.
    pub fn server_name(&self) -> (r: ServerName)
        ensures
            r@ == server_part(self.alias@),
    {
        self.alias.server_name()
    }
}

} // verus!
