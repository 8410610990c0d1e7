//! Rows of the `setup` table as the setup executor sees them.

use vstd::prelude::*;

verus! {

/// A row of the `setup` table: the hosted room's alias, administrator and id.
#[derive(Debug)]
pub struct Model {
    pub alias: String,
    pub admin: String,
    pub ident: String,
}

} // verus!
