//! The lookup of the event of a transaction: first among the applied, and
//! only if there is none, among the accepted.

use vstd::prelude::*;
use crate::error::{ErrorKind, QueryError};
use crate::event::Event;

verus! {

/// The kind of event that is looked up.
#[derive(Clone, Copy, Debug, PartialEq, Eq)]
pub enum TxEventPhase {
    Applied,
    Accepted,
}

/// What one lookup at the node gave.
#[derive(Debug, PartialEq, Eq)]
pub enum Lookup {
    /// The node has such an event.
    Found(Event),
    /// The node has no such event.
    Absent,
    /// The lookup itself failed.
    Failed,
}

/// What to do after a lookup.
#[derive(Debug, PartialEq, Eq)]
pub enum TxEventStep {
    /// Look up an event of this kind next.
    Ask(TxEventPhase),
    /// The event of the transaction.
    Found(Event),
    /// The transaction has no event, or a lookup failed.
    Failed(QueryError),
}

/// The value of a [`TxEventStep`]: a failure is its kind and its text.
pub enum StepValue {
    Ask(TxEventPhase),
    Found(Event),
    Failed(ErrorKind, Seq<char>),
}

impl View for TxEventStep {
    type V = StepValue;

    open spec fn view(&self) -> StepValue {
        match self {
            TxEventStep::Ask(phase) => StepValue::Ask(*phase),
            TxEventStep::Found(event) => StepValue::Found(*event),
            TxEventStep::Failed(error) => StepValue::Failed(error.kind, error.message@),
        }
    }
}

/// What is reported where a transaction has no event of either kind.
pub const NO_TX_EVENTS: &'static str = "Unable to find tx events for your transaction.";

/// What is reported where the lookup among the applied failed.
pub const APPLIED_LOOKUP_FAILED: &'static str = "Error find tx events for your transaction";

/// What is reported where the lookup among the accepted failed.
pub const ACCEPTED_LOOKUP_FAILED: &'static str = "Error to find tx events for your transaction.";

/// The kind of event that is looked up first.
pub open spec fn first_phase() -> TxEventPhase {
    TxEventPhase::Applied
}

/// What follows when the lookup of `phase` gave `lookup`: an event that is
/// found ends the search; a missing applied event sends the search on to the
/// accepted; a missing accepted event ends it with nothing found; a lookup
/// that failed ends it with the failure of that phase.
pub open spec fn next_step(phase: TxEventPhase, lookup: Lookup) -> StepValue {
    match lookup {
        Lookup::Found(event) => StepValue::Found(event),
        Lookup::Absent => match phase {
            TxEventPhase::Applied => StepValue::Ask(TxEventPhase::Accepted),
            TxEventPhase::Accepted => StepValue::Failed(ErrorKind::NotFound, NO_TX_EVENTS@),
        },
        Lookup::Failed => match phase {
            TxEventPhase::Applied => StepValue::Failed(
                ErrorKind::Upstream,
                APPLIED_LOOKUP_FAILED@,
            ),
            TxEventPhase::Accepted => StepValue::Failed(
                ErrorKind::Upstream,
                ACCEPTED_LOOKUP_FAILED@,
            ),
        },
    }
}

/// How the search ends when the lookup among the applied gives `applied`
/// and the one among the accepted, if it is made, gives `accepted`.
pub open spec fn resolution(applied: Lookup, accepted: Lookup) -> StepValue {
    match next_step(first_phase(), applied) {
        StepValue::Ask(phase) => next_step(phase, accepted),
        ended => ended,
    }
}

/// The kind of event to look up first.
pub fn tx_event_start() -> (phase: TxEventPhase)
    ensures
        phase == first_phase(),
{
    TxEventPhase::Applied
}

/// What to do when the lookup of `phase` gave `lookup`.
pub fn tx_event_step(phase: TxEventPhase, lookup: Lookup) -> (step: TxEventStep)
    ensures
        step@ == next_step(phase, lookup),
{
    match lookup {
        Lookup::Found(event) => TxEventStep::Found(event),
        Lookup::Absent => match phase {
            TxEventPhase::Applied => TxEventStep::Ask(TxEventPhase::Accepted),
            TxEventPhase::Accepted => TxEventStep::Failed(
                QueryError::not_found(NO_TX_EVENTS.to_owned()),
            ),
        },
        Lookup::Failed => match phase {
            TxEventPhase::Applied => TxEventStep::Failed(
                QueryError::upstream(APPLIED_LOOKUP_FAILED.to_owned()),
            ),
            TxEventPhase::Accepted => TxEventStep::Failed(
                QueryError::upstream(ACCEPTED_LOOKUP_FAILED.to_owned()),
            ),
        },
    }
}

/// The search ends after two lookups at most. An applied event wins over an
/// accepted one; an accepted event is the answer where there is no applied
/// one; where there is neither, the answer is that nothing was found.
pub proof fn lemma_resolution(applied: Lookup, accepted: Lookup)
    ensures
        !(resolution(applied, accepted) is Ask),
        applied matches Lookup::Found(event) ==> resolution(applied, accepted)
            == StepValue::Found(event),
        applied is Absent ==> (accepted matches Lookup::Found(event) ==> resolution(
            applied,
            accepted,
        ) == StepValue::Found(event)),
        applied is Absent && accepted is Absent ==> resolution(applied, accepted)
            == StepValue::Failed(ErrorKind::NotFound, NO_TX_EVENTS@),
        applied is Failed ==> resolution(applied, accepted) == StepValue::Failed(
            ErrorKind::Upstream,
            APPLIED_LOOKUP_FAILED@,
        ),
        applied is Absent && accepted is Failed ==> resolution(applied, accepted)
            == StepValue::Failed(ErrorKind::Upstream, ACCEPTED_LOOKUP_FAILED@),
{
}

} // verus!
