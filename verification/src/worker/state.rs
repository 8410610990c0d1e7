//! The executor that reaches the room state storage.

use std::sync::Arc;
use vstd::prelude::*;

verus! {

/// Reaches the room state storage.
pub struct Executor<T> {
    pub state: Arc<T>,
}

impl<T> Clone for Executor<T> {
    fn clone(&self) -> (r: Self)
        ensures
            r.state == self.state,
    {
        Executor { state: crate::worker::share(&self.state) }
    }
}

} // verus!
