//! Errors that cross a domain boundary.

use vstd::prelude::*;

verus! {

/// What a call into a domain can fail with.
#[derive(Clone, Copy, Debug, PartialEq, Eq, Structural)]
pub enum AlienError {
    /// The callee faulted during the call. Whatever it was working on, and
    /// whatever it was handed, is not to be trusted.
    DomainCrash,
    /// The domain was used against its rules: it was asked for a target that
    /// does not exist or that offers another kind of service.
    ContractViolation,
    /// The device or its protocol failed; the code is the device's own.
    Device(u32),
}

pub type AlienResult<T> = Result<T, AlienError>;

/// Whether an answer reports that the callee crashed.
pub open spec fn is_crash<T>(answer: AlienResult<T>) -> bool {
    answer == Err::<T, AlienError>(AlienError::DomainCrash)
}

} // verus!
