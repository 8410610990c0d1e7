//! The setup of the hosted room: its alias, its administrator and its id.

use vstd::prelude::*;

use crate::ids::{RoomAlias, RoomIdent, UserIdent};

verus! {

/// The alias, administrator and id of the hosted room.
#[derive(Debug)]
pub struct SetupBundle {
    pub alias: RoomAlias,
    pub admin: UserIdent,
    pub ident: RoomIdent,
}

impl View for SetupBundle {
    type V = (Seq<char>, Seq<char>, Seq<char>);

    open spec fn view(&self) -> (Seq<char>, Seq<char>, Seq<char>) {
        (self.alias@, self.admin@, self.ident@)
    }
}

} // verus!
