//! Coprocessor resource classes.

use vstd::prelude::*;

verus! {

/// The number of resource classes a project can hold per-resource flags for.
pub const MAX_RSC: usize = 8;

/// A processor type a task can be bound to.
#[derive(Clone, Copy, Debug, PartialEq, Eq, Structural, Hash)]
pub enum ProcType {
    CPU,
    NVIDIAGraphics,
    AMDGraphics,
    IntelGraphics,
    MinerASIC,
}

/// The coprocessor inventory of this host. Probing is out of scope; the
/// snapshot is currently empty.
#[derive(Clone, Copy, Debug, Default)]
pub struct Coprocs {}

} // verus!
