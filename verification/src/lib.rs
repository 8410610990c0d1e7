//! A Matrix federation homeserver for a single room: its identifiers, its
//! stored rows, the federation request authentication and the room directory
//! query, each with a verified contract.

pub mod ids;
pub mod models;
pub mod router;
pub mod worker;
