//! The executor that reaches the timeline storage.

use std::sync::Arc;
use vstd::prelude::*;

verus! {

/// Reaches the timeline (stored PDUs).
pub struct Executor<T> {
    pub state: Arc<T>,
}

impl<T> Clone for Executor<T> {
    fn clone(&self) -> (r: Self)
        ensures
            r.state == self.state,
    {
        Executor { state: crate::worker::share(&self.state) }
    }
}

} // verus!
