//! Errors of the measurement calculator.
use vstd::prelude::*;

verus! {

/// Why a firmware image could not be loaded or a page could not be measured.
#[derive(Clone, Copy, Debug, PartialEq, Eq, Structural)]
pub enum Error {
    /// The ROM image does not have the size expected of Stage0 firmware.
    UnexpectedSize,
    /// The GUIDed table at the end of the ROM, or the SEV metadata it points to, is malformed.
    MalformedMetadata,
    /// The SEV-ES reset block is malformed or, where additional vCPUs need it, missing.
    MalformedResetBlock,
    /// A page address handed to the digest engine is not page-aligned, or a run of pages
    /// extends past the end of the address space.
    InvalidArgument,
}

impl Error {
    /// A human-readable description of the error.
    pub fn message(&self) -> (r: String) {
        match self {
            Error::UnexpectedSize => "unexpected Stage0 ROM size".to_string(),
            Error::MalformedMetadata => "malformed SEV metadata".to_string(),
            Error::MalformedResetBlock => "malformed or missing SEV-ES reset block".to_string(),
            Error::InvalidArgument => "unaligned or out-of-range page address".to_string(),
        }
    }
}

} // verus!
