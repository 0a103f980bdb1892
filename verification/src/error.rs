//! What can go wrong while a notification is marshalled and delivered.

use vstd::prelude::*;

verus! {

/// Why the processing of one notification stopped.
#[derive(Debug, PartialEq, Eq, Structural, Clone, Copy)]
pub enum JniError {
    /// The host could not resolve a class or a method.
    LookupFailure,
    /// A value does not fit its destination, or the number of arguments
    /// differs from what the signature declares.
    EncodingContract,
    /// The payload is of another kind than announced, or the notification
    /// cannot be delivered through this path at all.
    UnexpectedVariant,
    /// The host rejected the call or threw while running it.
    ForeignInvocation,
    /// The notification needs more foreign objects than one scope may hold.
    CapacityExceeded,
}

/// The one classification that leaves the library.
#[derive(Debug, PartialEq, Eq, Structural, Clone, Copy)]
pub enum UwbError {
    ForeignFunctionInterface,
}

impl JniError {
    /// Collapses any kind of failure into the classification callers see.
    pub fn collapse(self) -> (e: UwbError)
        ensures
            e == UwbError::ForeignFunctionInterface,
    {
        UwbError::ForeignFunctionInterface
    }
}

} // verus!
