//! Pending project-attach state: the attach submitted now, its outcome
//! polled for later.

use vstd::prelude::*;
use crate::errors::Error;

verus! {

/// The outcome of the most recent attach attempt: an error if it failed,
/// and the progress messages accumulated for the poll reply.
#[derive(Debug)]
pub struct ProjectAttach {
    pub error: Option<Error>,
    pub messages: Vec<String>,
}

impl Default for ProjectAttach {
    /// No attach attempted yet: no error, no messages.
    fn default() -> (r: Self)
        ensures
            r.error is None,
            r.messages@.len() == 0,
    {
        ProjectAttach { error: None, messages: Vec::new() }
    }
}

} // verus!
