//! The live state an App publishes for its request handlers.

use vstd::prelude::*;
use std::sync::Arc;

verus! {

/// The live `Arc<T>` an App published; a handler destructures `Live(state)`
/// to get what it would otherwise take from `State<Arc<T>>`. (The HTTP layer
/// answers `503` while nothing is published.)
#[derive(Debug)]
pub struct Live<T>(pub Arc<T>);

impl<T> Live<T> {
    /// The published state.
    pub fn get(&self) -> (r: &T)
        ensures
            *r == *self.0,
    {
        &self.0
    }
}

} // verus!
