use vstd::prelude::*;

verus! {

/// Why an operation was refused. A refused operation changes no state and
/// records no event.
#[derive(Clone, Copy, Debug, PartialEq, Eq, Structural)]
pub enum Error {
    /// The null address was named as a participant of a transfer or approval.
    ZeroAddress,
    /// A debit exceeds the balance of the debited account.
    InsufficientBalance,
    /// A spend exceeds the allowance that the owner granted.
    InsufficientAllowance,
    /// The caller lacks the role, ownership or identity the operation needs.
    InvalidPermission,
    /// The host could not resolve the caller of the current call.
    InvalidContext,
}

} // verus!

verus! {

/// How a state-changing call relates to the transition that the model asks
/// for: where the model gives a new state, the call succeeds and reaches it;
/// where the model gives an error, the call returns that error and changes
/// nothing.
pub open spec fn outcome<M>(r: Result<(), Error>, before: M, after: M, expected: Result<M, Error>) -> bool {
    match expected {
        Ok(m) => r == Ok::<(), Error>(()) && after == m,
        Err(e) => r == Err::<(), Error>(e) && after == before,
    }
}

} // verus!
