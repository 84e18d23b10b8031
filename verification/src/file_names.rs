//! Well-known file and directory names in the client's data directory.

use vstd::prelude::*;
use vstd::string::StrSliceExecFns;

verus! {

pub const APP_INFO_FILE_NAME: &'static str = "app_info.xml";

pub const PROJECT_INIT_FILE_NAME: &'static str = "project_init.xml";

pub const PROJECTS_DIR: &'static str = "projects";

pub const STATE_FILE_NAME: &'static str = "client_state.xml";

pub const ALL_PROJECTS_LIST_FILENAME: &'static str = "all_projects_list.xml";

/// The name of the file that stores a project's account credentials.
pub fn account_filename(canonical_master_url: &str) -> (r: String)
    ensures
        r@ == "account_"@ + canonical_master_url@,
{
    let mut out = String::new();
    out.append("account_");
    out.append(canonical_master_url);
    proof {
        assert(out@ == Seq::<char>::empty() + "account_"@ + canonical_master_url@);
        assert(Seq::<char>::empty() + "account_"@ == "account_"@);
    }
    out
}

} // verus!
