use vstd::prelude::*;

use crate::error::QueryError;

verus! {

/// What the caller receives for a given observation of the wait half:
/// a delivered terminal outcome passes through unchanged, and "producer
/// gone without any delivery" becomes `RequestDropped`.
pub open spec fn resolve_observed<T>(observed: Option<Result<T, QueryError>>) -> Result<
    T,
    QueryError,
> {
    match observed {
        Some(outcome) => outcome,
        None => Err(QueryError::RequestDropped),
    }
}

/// Maps what the wait half of a completion token observed into the
/// caller-facing result. `None` means the token was destroyed before any
/// terminal callback ran; the caller still gets an ordinary error rather
/// than hanging or seeing a foreign exception.
pub fn resolve<T>(observed: Option<Result<T, QueryError>>) -> (r: Result<T, QueryError>)
    ensures
        r == resolve_observed(observed),
{
    match observed {
        Some(outcome) => outcome,
        None => Err(QueryError::RequestDropped),
    }
}

/// Payload fidelity: a successfully delivered payload reaches the caller
/// as `Ok` of that very payload, with no mutation, whatever the payload
/// type is.
pub proof fn lemma_payload_fidelity<T>(payload: T)
    ensures
        resolve_observed(Some(Ok::<T, QueryError>(payload))) == Ok::<T, QueryError>(payload),
{
}

/// No hang on drop: a token destroyed without any completion call still
/// resolves on the waiting side, to `RequestDropped`.
pub proof fn lemma_drop_resolves<T>()
    ensures
        resolve_observed(None::<Result<T, QueryError>>) == Err::<T, QueryError>(
            QueryError::RequestDropped,
        ),
{
}

} // verus!
