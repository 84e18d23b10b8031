//! Account-manager attachment state.

use vstd::prelude::*;
use crate::common::ProjAm;

verus! {

/// Whether the account manager demands cookie-based reauthorization, and
/// where to send the user if so.
#[derive(Debug)]
pub enum CookieStatus {
    NotRequired,
    Required(String),
}

impl Default for CookieStatus {
    fn default() -> (r: Self)
        ensures
            r is NotRequired,
    {
        CookieStatus::NotRequired
    }
}

/// What is known about the optional account manager this client is
/// attached through.
#[derive(Debug)]
pub struct AcctMgrInfo {
    pub master_url: String,
    pub project_name: String,
    pub login_name: Option<String>,
    pub user_name: String,
    pub password_hash: String,
    pub cookie_status: CookieStatus,
    pub password_error: bool,
}

impl Default for AcctMgrInfo {
    /// No account manager: every field empty, unset, or false.
    fn default() -> (r: Self)
        ensures
            r.master_url@ == Seq::<char>::empty(),
            r.project_name@ == Seq::<char>::empty(),
            r.login_name is None,
            r.user_name@ == Seq::<char>::empty(),
            r.password_hash@ == Seq::<char>::empty(),
            r.cookie_status is NotRequired,
            !r.password_error,
    {
        AcctMgrInfo {
            master_url: String::new(),
            project_name: String::new(),
            login_name: None,
            user_name: String::new(),
            password_hash: String::new(),
            cookie_status: CookieStatus::NotRequired,
            password_error: false,
        }
    }
}

impl ProjAm for AcctMgrInfo {
    open spec fn spec_master_url(&self) -> Seq<char> {
        self.master_url@
    }

    open spec fn spec_project_name(&self) -> Option<Seq<char>> {
        Some(self.project_name@)
    }

    fn master_url(&self) -> (r: String) {
        self.master_url.clone()
    }

    fn project_name(&self) -> (r: Option<String>) {
        Some(self.project_name.clone())
    }
}

} // verus!
