//! Work units: units of computation fetched from a project.

use vstd::prelude::*;

verus! {

/// A unit of computation, paired with an application version to form a
/// runnable task. Resource estimates are in whole units (operations, bytes).
#[derive(Debug)]
pub struct Workunit {
    pub name: String,
    pub app_name: String,
    pub command_line: String,
    pub rsc_fpops_est: u64,
    pub rsc_fpops_bound: u64,
    pub rsc_memory_bound: u64,
    pub rsc_disk_bound: u64,
}

} // verus!
