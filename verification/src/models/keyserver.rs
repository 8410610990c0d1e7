//! Rows of the `keyserver` table: cached signing keys of other servers.

use vstd::prelude::*;

verus! {

/// A row of the `keyserver` table: a server name and its signing keys as
/// JSON.
#[derive(Debug)]
pub struct Model {
    pub server: String,
    pub keys: String,
}

} // verus!
