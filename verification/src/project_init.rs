//! The contents of the project-init file: an account to attach to at first
//! start.

use vstd::prelude::*;

verus! {

/// The account named by the project-init file, if one was found.
#[derive(Debug)]
pub struct ProjectInit {
    pub url: String,
    pub name: String,
    pub team_name: String,
    pub account_key: String,
    pub setup_cookie: Vec<u8>,
    pub embedded: bool,
}

} // verus!
