//! The ways in which a search of the register can fail.

use vstd::prelude::*;

verus! {

/// Why a search produced no list of licences.
#[derive(Debug, Clone, Copy, PartialEq, Eq, Structural)]
pub enum SIAError {
    /// The page says that the search matched nothing.
    NoLicensesFound,
    /// The page says that the search matched too much to be listed.
    TooManyResults,
    /// The page holds neither of the two notices nor a single result card:
    /// its layout is not the one this library reads.
    NoLicenseContainersFound,
    /// A result card holds none of the fields of a licence.
    RecordUnparseable,
    /// The request could not be delivered, and the retries are used up.
    TransportFailed,
    /// The server answered with this status outside 200..=299, and the
    /// retries are used up.
    ServerRejected(u16),
}

impl SIAError {
    /// The two failures that stand for a valid, empty answer.
    pub open spec fn recoverable(self) -> bool {
        self == SIAError::NoLicensesFound || self == SIAError::TooManyResults
    }

    /// Whether this failure stands for a valid, empty answer rather than
    /// for a fault.
    pub fn is_recoverable(&self) -> (r: bool)
        ensures
            r == self.recoverable(),
    {
        match self {
            SIAError::NoLicensesFound => true,
            SIAError::TooManyResults => true,
            _ => false,
        }
    }
}

} // verus!
