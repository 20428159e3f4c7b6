//! The lifecycle of an invoice as a state machine.
//!
//! An invoice starts unpaid with no token issued. Its payment status only
//! moves forward, and a token is issued for it at most once, and only
//! after it was seen paid. The operations on the invoice record are
//! stated in terms of `step`; what holds of every sequence of events is
//! proved here over `run`.

use vstd::prelude::*;

use crate::ln::status::{InvoiceStatus, InvoiceTokenStatus};

verus! {

/// The part of an invoice that its lifecycle moves.
#[derive(Debug, Clone, Copy, PartialEq, Eq, Structural, Hash)]
pub struct Lifecycle {
    pub status: InvoiceStatus,
    pub token_status: InvoiceTokenStatus,
}

/// What can happen to an invoice.
#[derive(Debug, Clone, Copy, PartialEq, Eq, Structural, Hash)]
pub enum LifecycleEvent {
    /// A backend reported this status, by notification or by poll.
    Observed(InvoiceStatus),
    /// The mint was asked to issue a token for the invoice.
    IssueRequested,
}

/// Why no token was issued.
#[derive(Debug, Clone, Copy, PartialEq, Eq, Structural, Hash)]
pub enum IssueError {
    /// A token was issued for this invoice before.
    AlreadyIssued,
    /// The invoice has not been seen paid.
    NotPaid,
    /// The invoice expired unpaid.
    Expired,
}

/// The moves that the payment status may make: from unpaid to in flight,
/// paid or expired, and from in flight to paid. `Paid` and `Expired` are
/// left by no move.
pub open spec fn can_move(from: InvoiceStatus, to: InvoiceStatus) -> bool {
    match (from, to) {
        (InvoiceStatus::Unpaid, InvoiceStatus::InFlight) => true,
        (InvoiceStatus::Unpaid, InvoiceStatus::Paid) => true,
        (InvoiceStatus::Unpaid, InvoiceStatus::Expired) => true,
        (InvoiceStatus::InFlight, InvoiceStatus::Paid) => true,
        _ => false,
    }
}

/// The status after `observed` was reported for an invoice in `current`:
/// the reported one where that is a move the lifecycle permits, else the
/// one it had.
pub open spec fn next_status(current: InvoiceStatus, observed: InvoiceStatus) -> InvoiceStatus {
    if can_move(current, observed) {
        observed
    } else {
        current
    }
}

/// What a request to issue a token is answered with.
pub open spec fn issue_outcome(state: Lifecycle) -> Result<(), IssueError> {
    if state.token_status == InvoiceTokenStatus::Issued {
        Err(IssueError::AlreadyIssued)
    } else {
        match state.status {
            InvoiceStatus::Paid => Ok(()),
            InvoiceStatus::Expired => Err(IssueError::Expired),
            InvoiceStatus::Unpaid => Err(IssueError::NotPaid),
            InvoiceStatus::InFlight => Err(IssueError::NotPaid),
        }
    }
}

/// The state after one event.
pub open spec fn step(state: Lifecycle, event: LifecycleEvent) -> Lifecycle {
    match event {
        LifecycleEvent::Observed(observed) => Lifecycle {
            status: next_status(state.status, observed),
            token_status: state.token_status,
        },
        LifecycleEvent::IssueRequested => if issue_outcome(state) is Ok {
            Lifecycle { status: state.status, token_status: InvoiceTokenStatus::Issued }
        } else {
            state
        },
    }
}

/// The state after a sequence of events, first to last.
pub open spec fn run(state: Lifecycle, events: Seq<LifecycleEvent>) -> Lifecycle
    decreases events.len(),
{
    if events.len() == 0 {
        state
    } else {
        step(run(state, events.drop_last()), events.last())
    }
}

impl Lifecycle {
    /// A token counts as issued only for an invoice that is paid.
    pub open spec fn wf(self) -> bool {
        self.token_status == InvoiceTokenStatus::Issued ==> self.status == InvoiceStatus::Paid
    }
}

/// Running one sequence of events and then another is running the two
/// joined.
pub proof fn lemma_run_concat(
    state: Lifecycle,
    first: Seq<LifecycleEvent>,
    second: Seq<LifecycleEvent>,
)
    ensures
        run(state, first + second) == run(run(state, first), second),
    decreases second.len(),
{
    if second.len() == 0 {
        assert(first + second =~= first);
    } else {
        lemma_run_concat(state, first, second.drop_last());
        assert((first + second).drop_last() =~= first + second.drop_last());
        assert((first + second).last() == second.last());
    }
}

/// Whatever is reported or requested afterwards, a paid invoice stays
/// paid, an expired invoice stays expired, and an issued token stays
/// issued.
pub proof fn lemma_final_states(state: Lifecycle, events: Seq<LifecycleEvent>)
    ensures
        state.status == InvoiceStatus::Paid ==> run(state, events).status == InvoiceStatus::Paid,
        state.status == InvoiceStatus::Expired ==> run(state, events).status
            == InvoiceStatus::Expired,
        state.token_status == InvoiceTokenStatus::Issued ==> run(state, events).token_status
            == InvoiceTokenStatus::Issued,
    decreases events.len(),
{
    if events.len() > 0 {
        lemma_final_states(state, events.drop_last());
    }
}

/// Along any sequence of events, once the invoice is paid at some point
/// it is paid at every later point, and likewise once it is expired and
/// once its token is issued: no sequence leads from paid back to unpaid
/// or from issued back to not issued.
pub proof fn lemma_lifecycle_monotonic(
    state: Lifecycle,
    events: Seq<LifecycleEvent>,
    earlier: int,
    later: int,
)
    requires
        0 <= earlier <= later <= events.len(),
    ensures
        run(state, events.take(earlier)).status == InvoiceStatus::Paid ==> run(
            state,
            events.take(later),
        ).status == InvoiceStatus::Paid,
        run(state, events.take(earlier)).status == InvoiceStatus::Expired ==> run(
            state,
            events.take(later),
        ).status == InvoiceStatus::Expired,
        run(state, events.take(earlier)).token_status == InvoiceTokenStatus::Issued ==> run(
            state,
            events.take(later),
        ).token_status == InvoiceTokenStatus::Issued,
{
    let between = events.subrange(earlier, later);
    assert(events.take(later) =~= events.take(earlier) + between);
    lemma_run_concat(state, events.take(earlier), between);
    lemma_final_states(run(state, events.take(earlier)), between);
}

/// A token is only ever issued for a paid invoice: if that holds of a
/// state, it holds after any sequence of events.
pub proof fn lemma_issued_only_if_paid(state: Lifecycle, events: Seq<LifecycleEvent>)
    requires
        state.wf(),
    ensures
        run(state, events).wf(),
    decreases events.len(),
{
    if events.len() > 0 {
        lemma_issued_only_if_paid(state, events.drop_last());
    }
}

/// A token is issued only for an invoice that is paid and has none yet:
/// the move to paid is the only one that opens the way to issuance.
pub proof fn lemma_issue_needs_payment(state: Lifecycle)
    ensures
        issue_outcome(state) is Ok <==> state.status == InvoiceStatus::Paid && state.token_status
            == InvoiceTokenStatus::NotIssued,
{
}

/// A request to issue against an invoice whose token was issued is
/// refused and changes nothing.
pub proof fn lemma_second_issue_refused(state: Lifecycle)
    requires
        state.token_status == InvoiceTokenStatus::Issued,
    ensures
        issue_outcome(state) == Err::<(), IssueError>(IssueError::AlreadyIssued),
        step(state, LifecycleEvent::IssueRequested) == state,
{
}

/// A settlement reported for an expired invoice does not make it paid,
/// and no token can be issued for it.
pub proof fn lemma_expired_rejects_payment(state: Lifecycle)
    requires
        state.status == InvoiceStatus::Expired,
    ensures
        step(state, LifecycleEvent::Observed(InvoiceStatus::Paid)).status
            == InvoiceStatus::Expired,
        issue_outcome(state) is Err,
{
}

/// Only the observation of `Paid` makes an invoice paid, and only from
/// unpaid or in flight.
pub proof fn lemma_paid_only_by_settlement(state: Lifecycle, event: LifecycleEvent)
    requires
        state.status != InvoiceStatus::Paid,
        step(state, event).status == InvoiceStatus::Paid,
    ensures
        event == LifecycleEvent::Observed(InvoiceStatus::Paid),
        state.status == InvoiceStatus::Unpaid || state.status == InvoiceStatus::InFlight,
{
}

/// An event that arrives twice in a row does no more than the same event
/// arriving once: a report may be delivered again, and a request may be
/// repeated, without harm.
pub proof fn lemma_repeat_changes_nothing(state: Lifecycle, event: LifecycleEvent)
    ensures
        step(step(state, event), event) == step(state, event),
{
}

/// How many of the events were requests that led to an issuance.
pub open spec fn issuances(state: Lifecycle, events: Seq<LifecycleEvent>) -> nat
    decreases events.len(),
{
    if events.len() == 0 {
        0
    } else {
        let before = run(state, events.drop_last());
        let granted: nat = if events.last() is IssueRequested && issue_outcome(before) is Ok {
            1
        } else {
            0
        };
        issuances(state, events.drop_last()) + granted
    }
}

/// However often issuance is requested, and in whatever order reports
/// arrive, a token is issued at most once for an invoice, and never again
/// for one whose token was issued at the start.
pub proof fn lemma_at_most_one_issuance(state: Lifecycle, events: Seq<LifecycleEvent>)
    ensures
        issuances(state, events) <= 1,
        state.token_status == InvoiceTokenStatus::Issued ==> issuances(state, events) == 0,
        state.token_status == InvoiceTokenStatus::NotIssued ==> (issuances(state, events) == 1
            <==> run(state, events).token_status == InvoiceTokenStatus::Issued),
    decreases events.len(),
{
    if events.len() > 0 {
        lemma_at_most_one_issuance(state, events.drop_last());
        lemma_final_states(state, events.drop_last());
    }
}

} // verus!
