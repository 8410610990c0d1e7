//! Rows of the storage tables, and how the setup row is read and written.

pub mod keyserver;
pub mod setup;
pub mod timeline;

use vstd::prelude::*;

use crate::ids::{room_alias_check, room_id_check, user_id_check, IdError, RoomAlias, RoomIdent, UserIdent};
use crate::worker::setup::SetupBundle;

verus! {

/// A row of the `setup` table: the hosted room's alias, administrator and id.
#[derive(Debug)]
pub struct Model {
    pub alias: String,
    pub admin: String,
    pub ident: String,
}

/// A setup row as text.
pub open spec fn row_view(row: Model) -> (Seq<char>, Seq<char>, Seq<char>) {
    (row.alias@, row.admin@, row.ident@)
}

/// What reading a setup row gives: nothing for no row, otherwise its three
/// identifiers, each checked by ruma in turn (alias, administrator, room id);
/// the first refusal is the error.
pub open spec fn decode_setup(row: Option<(Seq<char>, Seq<char>, Seq<char>)>) -> Result<
    Option<(Seq<char>, Seq<char>, Seq<char>)>,
    IdError,
> {
    match row {
        None => Ok(None),
        Some(r) => match room_alias_check(r.0) {
            Err(e) => Err(e),
            Ok(_) => match user_id_check(r.1) {
                Err(e) => Err(e),
                Ok(_) => match room_id_check(r.2) {
                    Err(e) => Err(e),
                    Ok(_) => Ok(Some(r)),
                },
            },
        },
    }
}

/// A setup row that was read successfully.
pub open spec fn found_setup(row: (Seq<char>, Seq<char>, Seq<char>)) -> Result<
    Option<(Seq<char>, Seq<char>, Seq<char>)>,
    IdError,
> {
    Ok(Some(row))
}

/// What reading a setup row gave, as text.
pub open spec fn decoded_view(r: Result<Option<SetupBundle>, IdError>) -> Result<
    Option<(Seq<char>, Seq<char>, Seq<char>)>,
    IdError,
> {
    match r {
        Ok(Some(b)) => Ok(Some(b@)),
        Ok(None) => Ok(None),
        Err(e) => Err(e),
    }
}

impl Model {
    /// The row that stores `setup`.
    pub fn from_setup(setup: &SetupBundle) -> (r: Model)
        ensures
            row_view(r) == setup@,
            room_alias_check(r.alias@) is Ok,
            user_id_check(r.admin@) is Ok,
            r.ident@.len() > 0 && r.ident@[0] == '!',
    {
        Model {
            alias: String::from_str(setup.alias.as_str()),
            admin: String::from_str(setup.admin.as_str()),
            ident: String::from_str(setup.ident.as_str()),
        }
    }
}

/// Reads the setup of the hosted room from its row, if there is one.
pub fn setup_from_row(row: Option<Model>) -> (r: Result<Option<SetupBundle>, IdError>)
    ensures
        decoded_view(r) == decode_setup(
            match row {
                Some(m) => Some(row_view(m)),
                None => None,
            },
        ),
{
    let row = match row {
        Some(m) => m,
        None => {
            return Ok(None);
        },
    };
    let alias = match RoomAlias::parse(row.alias.as_str()) {
        Ok(a) => a,
        Err(e) => {
            return Err(e);
        },
    };
    let admin = match UserIdent::parse(row.admin.as_str()) {
        Ok(a) => a,
        Err(e) => {
            return Err(e);
        },
    };
    let ident = match RoomIdent::parse(row.ident.as_str()) {
        Ok(i) => i,
        Err(e) => {
            return Err(e);
        },
    };
    Ok(Some(SetupBundle { alias, admin, ident }))
}

/// Law: a setup written to its row reads back as the same setup, whenever
/// ruma accepts its room id, which it does up to 255 bytes.
pub proof fn lemma_setup_row_round_trip(alias: Seq<char>, admin: Seq<char>, ident: Seq<char>)
    requires
        room_alias_check(alias) is Ok,
        user_id_check(admin) is Ok,
        ident.len() > 0 && ident[0] == '!',
        crate::ids::utf8_len(ident) <= 255,
    ensures
        decode_setup(Some((alias, admin, ident))) == found_setup((alias, admin, ident)),
{
}

} // verus!
