use vstd::prelude::*;

verus! {

/// Why the relay refused a call.
#[derive(Clone, Copy, Debug, PartialEq, Eq, Structural)]
pub enum ErrorCode {
    /// The forwarded call names a program other than the trusted one.
    InvalidTarget,
    /// The payload's selector is not the one allowed operation.
    InvalidPayloadSelector,
    /// No entry of the account list is the custody account.
    CustodyAccountNotFound,
    /// The custody account already holds value.
    AlreadyInitialized,
    /// The funder holds less than the amount to move.
    InsufficientFunds,
    /// The downstream program refused the forwarded call.
    InvocationRejected,
    /// The payload is too short to carry a selector.
    MalformedPayload,
    /// The supplied custody address is not the derived one.
    InvalidCustodyAddress,
}

} // verus!
