//! The executor that fetches the signing keys of other servers.

use std::sync::Arc;
use vstd::prelude::*;
use vstd::string::*;

use crate::ids::{host_part, ServerName};

verus! {

/// Fetches the signing keys of other servers.
pub struct Executor<T> {
    pub state: Arc<T>,
}

/// The URL at which `server` publishes its signing keys: its host, on the
/// federation port 8448, at `/_matrix/key/v2/server`, over https.
pub open spec fn key_server_url(server: Seq<char>) -> Seq<char> {
    "https://"@ + host_part(server) + ":8448"@ + "/_matrix/key/v2/server"@
}

impl<T> Executor<T> {
    /// The URL to fetch `server`'s signing keys from.
    pub fn url(&self, server: &ServerName) -> (r: String)
        ensures
            r@ == key_server_url(server@),
    {
        let mut url = String::from_str("https://");
        let host = server.host();
        url.append(host.as_str());
        url.append(":8448");
        url.append("/_matrix/key/v2/server");
        url
    }
}

impl<T> Clone for Executor<T> {
    fn clone(&self) -> (r: Self)
        ensures
            r.state == self.state,
    {
        Executor { state: crate::worker::share(&self.state) }
    }
}

} // verus!
