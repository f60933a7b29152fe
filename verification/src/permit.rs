//! Taking a permitted failure for success.

use vstd::prelude::*;
use permitit::Permit;
use crate::class::Failure;
use crate::policy::Operation;
use crate::policy::permitted;

verus! {

/// The outcome of a host call once `op` has taken what it permits for success:
/// a failure of a permitted class becomes success, and every other outcome
/// stays as it is.
pub open spec fn absorbed<E>(op: Operation, outcome: Result<(), Failure<E>>) -> Result<
    (),
    Failure<E>,
> {
    match outcome {
        Err(failure) if permitted(op, failure.class) => Ok(()),
        _ => outcome,
    }
}

/// Calls `permit` of `permitit::Permit` on `outcome`, with the test whether
/// `op` permits the failure. Trusted: that `permit` hands back `Ok(())` for
/// `Ok(())` and for an error that passes the test, and the error itself
/// otherwise.
#[verifier::external_body]
pub(crate) fn absorb<E>(op: Operation, outcome: Result<(), Failure<E>>) -> (settled: Result<
    (),
    Failure<E>,
>)
    ensures
        settled == absorbed(op, outcome),
{
    outcome.permit(|failure| failure.permitted_by(op))
}

} // verus!
