//! Error taxonomy of the sector manager and of the sector builder.
use vstd::prelude::*;
use vstd::string::StringExecFns;

verus! {

/// A failed sector-manager operation, classified by who is at fault.
#[derive(Debug, Clone, PartialEq, Eq)]
pub enum SectorManagerErr {
    /// Reserved catch-all.
    UnclassifiedError(String),
    /// The request itself was invalid or could not be acted upon.
    CallerError(String),
    /// An internal operation failed unexpectedly.
    ReceiverError(String),
}

/// The human-readable text of a sector-manager error: its kind, then its detail.
pub open spec fn manager_err_text(e: SectorManagerErr) -> Seq<char> {
    match e {
        SectorManagerErr::UnclassifiedError(m) => "unclassified error: "@ + m@,
        SectorManagerErr::CallerError(m) => "caller error: "@ + m@,
        SectorManagerErr::ReceiverError(m) => "receiver error: "@ + m@,
    }
}

impl SectorManagerErr {
    /// The human-readable text of this error.
    pub fn message(&self) -> (r: String)
        ensures
            r@ == manager_err_text(*self),
    {
        let (mut text, detail) = match self {
            SectorManagerErr::UnclassifiedError(m) => (String::from_str("unclassified error: "), m),
            SectorManagerErr::CallerError(m) => (String::from_str("caller error: "), m),
            SectorManagerErr::ReceiverError(m) => (String::from_str("receiver error: "), m),
        };
        text.append(detail.as_str());
        text
    }
}

/// A failed sector-builder operation.
#[derive(Debug, Clone, PartialEq, Eq)]
pub enum SectorBuilderErr {
    /// A piece holds more bytes than a sector can take.
    OverflowError { num_bytes_in_piece: u64, max_bytes_per_sector: u64 },
    /// Fewer (or more) bytes were written than the piece holds.
    IncompleteWriteError { num_bytes_written: u64, num_bytes_in_piece: u64 },
    /// The builder's own state was found inconsistent.
    InvalidInternalStateError(String),
}

} // verus!
