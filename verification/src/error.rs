//! The failures an invocation can end in.

use vstd::prelude::*;

verus! {

/// Every way in which an invocation is turned down. Each one aborts the whole
/// invocation; none is recovered from.
#[derive(Debug, Clone, Copy, PartialEq, Eq, Structural)]
pub enum SwapError {
    /// The payload is not the exact encoding of an instruction.
    MalformedInstruction,
    /// The account that has to authorize the operation did not sign.
    MissingAuthorization,
    /// Fewer accounts were supplied than the operation has roles.
    InsufficientAccounts,
    /// A supplied reserve address is not the derived one.
    AddressMismatch,
    /// A product or a sum left the 64-bit unsigned range, or the divisor of the
    /// pricing formula was zero.
    ArithmeticOverflow,
    /// The debit would take more from a reserve than it holds.
    InsufficientReserve,
    /// The transfer service turned the incoming transfer down.
    TransferFailed,
    /// The allocator service turned the creation of a reserve account down.
    AccountCreationFailed,
}

} // verus!
