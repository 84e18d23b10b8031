//! Certificate signatures attached to downloaded files.

use vstd::prelude::*;

verus! {

/// One certificate-based signature.
#[derive(Debug)]
pub struct CertSig {
    pub signature: String,
    pub subject: String,
    pub hash: String,
}

/// The signatures attached to one file.
#[derive(Debug)]
pub struct CertSigs {
    pub signatures: Vec<CertSig>,
}

} // verus!
