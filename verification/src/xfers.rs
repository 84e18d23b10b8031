//! File-transfer bookkeeping: the status a transfer server reports for its
//! up- and downloads. Performing transfers is network work and lives with
//! the embedder.

use vstd::prelude::*;

verus! {

/// Which way a transfer moves.
#[derive(Clone, Copy, Debug, PartialEq, Eq, Structural)]
pub enum XferDirection {
    Up,
    Down,
}

/// One tracked transfer. The live worker driving it belongs to the
/// embedder; the library tracks its presence.
#[derive(Debug)]
pub struct Xfer {
    pub direction: XferDirection,
}

/// The reported state of one transfer.
#[derive(Debug, Default)]
pub struct XferStatus {}

/// The totals a transfer server reports, with its current transfers keyed
/// by id.
#[derive(Debug)]
pub struct XferServerStatus {
    pub up: u64,
    pub down: u64,
    pub current_xfers: Vec<(u64, XferStatus)>,
}

impl Default for XferServerStatus {
    /// No traffic counted and no transfers under way.
    fn default() -> (r: Self)
        ensures
            r.up == 0,
            r.down == 0,
            r.current_xfers@.len() == 0,
    {
        XferServerStatus { up: 0, down: 0, current_xfers: Vec::new() }
    }
}

} // verus!
