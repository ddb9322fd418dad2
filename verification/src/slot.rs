use vstd::prelude::*;

use crate::bridge::resolve_observed;
use crate::error::QueryError;

verus! {

/// One delivery attempt against a slot whose current content is `cur`:
/// the first delivery fills the slot, every later attempt leaves it
/// unchanged.
pub open spec fn deliver_one<T>(
    cur: Option<Result<T, QueryError>>,
    outcome: Result<T, QueryError>,
) -> Option<Result<T, QueryError>> {
    if cur is None {
        Some(outcome)
    } else {
        cur
    }
}

/// The slot content after a whole sequence of delivery attempts, applied
/// in order.
pub open spec fn deliver_all<T>(
    cur: Option<Result<T, QueryError>>,
    outcomes: Seq<Result<T, QueryError>>,
) -> Option<Result<T, QueryError>>
    decreases outcomes.len(),
{
    if outcomes.len() == 0 {
        cur
    } else {
        deliver_all(deliver_one(cur, outcomes[0]), outcomes.skip(1))
    }
}

/// The single pending result slot behind a completion token: a guarded
/// optional value. A one-shot channel is this slot plus a wakeup signal;
/// the guard makes a second completion attempt a silently ignored no-op
/// rather than undefined behaviour, even against a misbehaving producer.
pub struct ResultSlot<T> {
    content: Option<Result<T, QueryError>>,
}

impl<T> ResultSlot<T> {
    /// The terminal outcome delivered so far, if any.
    pub closed spec fn observed(self) -> Option<Result<T, QueryError>> {
        self.content
    }

    /// A fresh slot with no delivery yet.
    pub fn new() -> (s: Self)
        ensures
            s.observed() is None,
    {
        ResultSlot { content: None }
    }

    /// Attempts to deliver a terminal outcome. Only the first delivery has
    /// effect; the return value says whether this call was the one that
    /// filled the slot.
    pub fn deliver(&mut self, outcome: Result<T, QueryError>) -> (accepted: bool)
        ensures
            accepted == (old(self).observed() is None),
            final(self).observed() == deliver_one(old(self).observed(), outcome),
    {
        if self.content.is_none() {
            self.content = Some(outcome);
            true
        } else {
            false
        }
    }

    /// Consumes the slot on the waiting side: a delivered outcome passes
    /// through, an untouched slot resolves to `RequestDropped`.
    pub fn resolve(self) -> (r: Result<T, QueryError>)
        ensures
            r == resolve_observed(self.observed()),
    {
        crate::bridge::resolve(self.content)
    }
}

/// A slot that already holds an outcome is never overwritten, whatever
/// sequence of further delivery attempts is made.
pub proof fn lemma_filled_slot_stays<T>(
    outcome: Result<T, QueryError>,
    attempts: Seq<Result<T, QueryError>>,
)
    ensures
        deliver_all(Some(outcome), attempts) == Some(outcome),
    decreases attempts.len(),
{
    if attempts.len() > 0 {
        lemma_filled_slot_stays(outcome, attempts.skip(1));
    }
}

/// Exactly-once delivery: for every sequence of completion attempts on one
/// token, only the first attempt has effect, and the waiting side observes
/// exactly one terminal outcome — the first attempt's if there was one,
/// `RequestDropped` if there was none.
pub proof fn lemma_exactly_once<T>(attempts: Seq<Result<T, QueryError>>)
    ensures
        attempts.len() > 0 ==> resolve_observed(
            deliver_all(None::<Result<T, QueryError>>, attempts),
        ) == attempts[0],
        attempts.len() == 0 ==> resolve_observed(
            deliver_all(None::<Result<T, QueryError>>, attempts),
        ) == Err::<T, QueryError>(QueryError::RequestDropped),
{
    if attempts.len() > 0 {
        lemma_filled_slot_stays(attempts[0], attempts.skip(1));
    }
}

} // verus!
