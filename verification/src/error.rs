//! Errors reported by the library.

use vstd::prelude::*;

verus! {

/// Why an operation was refused.
#[derive(Debug, Clone, Copy, PartialEq, Eq, Structural)]
pub enum SignatureError {
    /// A proof, a signature or an aggregate failed its verification equation.
    Invalid,
    /// The lists of public keys and of signatures differ in length.
    LengthMismatch,
    /// A byte string is not the canonical encoding of the expected value.
    DecodeError,
}

/// The result of an operation that can be refused.
pub type SignatureResult<T> = Result<T, SignatureError>;

/// The result of a verification: `Ok` where the check accepts, `Invalid` where
/// it does not.
pub open spec fn verdict(accepted: bool) -> SignatureResult<()> {
    if accepted {
        Ok(())
    } else {
        Err(SignatureError::Invalid)
    }
}

} // verus!
