//! Applications and application versions offered by a project.

use vstd::prelude::*;
use crate::workunit::Workunit;

verus! {

/// One version of a project application. Processor counts are in whole
/// processors.
#[derive(Debug)]
pub struct AppVersion {
    pub file_name: String,
    pub app_name: String,
    pub version_num: i32,
    pub platform: String,
    pub plan_class: String,
    pub api_version: String,
    pub avg_ncpus: u64,
    pub max_ncpus: u64,
}

/// A project application, its work units, versions, and active tasks,
/// each keyed by id.
#[derive(Debug)]
pub struct App {
    pub name: String,
    pub user_friendly_name: String,
    pub work_units: Vec<(u64, Workunit)>,
    pub versions: Vec<(u64, AppVersion)>,
    pub active_tasks: Vec<u64>,
}

} // verus!
