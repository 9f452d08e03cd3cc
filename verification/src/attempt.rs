//! The status timeline of one payment attempt: how a status that a
//! connector reported is merged into the status that is already known.
//!
//! A response to a request, the answer to a sync call and a webhook may all
//! report on the same attempt, in any order. They are merged one at a time.

use vstd::prelude::*;
use crate::enums::{AttemptStatus, StatusSource};

verus! {

/// The status of an attempt together with the source that reported it.
#[derive(Clone, Copy, Debug, PartialEq, Eq, Structural)]
pub struct AttemptState {
    pub status: AttemptStatus,
    pub source: StatusSource,
}

impl AttemptState {
    /// The state after `incoming` has been merged into `self`.
    ///
    /// A terminal state stays as it is. Otherwise the incoming state is
    /// taken if it moves the attempt forward, whoever reports it. A state
    /// that does not move the attempt forward is taken only from a
    /// response or a sync answer whose source is at least as specific as
    /// the source of the current state: such a source may correct what is
    /// known of an attempt that has not come to its end. A webhook never
    /// does: it may only move an attempt forward.
    pub open spec fn spec_merge(self, incoming: AttemptState) -> AttemptState {
        if self.status.spec_is_terminal() {
            self
        } else if incoming.status.spec_rank() > self.status.spec_rank() {
            incoming
        } else if incoming.source != StatusSource::Webhook
            && incoming.source.spec_specificity() >= self.source.spec_specificity() {
            incoming
        } else {
            self
        }
    }

    /// Merges a newly reported state into the current one.
    pub fn merge(self, incoming: AttemptState) -> (res: AttemptState)
        ensures
            res == self.spec_merge(incoming),
    {
        if self.status.is_terminal() {
            self
        } else if incoming.status.rank() > self.status.rank() {
            incoming
        } else if !matches!(incoming.source, StatusSource::Webhook)
            && incoming.source.specificity() >= self.source.specificity() {
            incoming
        } else {
            self
        }
    }

    /// The state after all of `updates` have been merged into `self`, the
    /// first one first.
    pub open spec fn spec_merge_all(self, updates: Seq<AttemptState>) -> AttemptState
        decreases updates.len(),
    {
        if updates.len() == 0 {
            self
        } else {
            self.spec_merge_all(updates.drop_last()).spec_merge(updates.last())
        }
    }

    /// Merges a run of reported states into the current one, in their order.
    pub fn merge_all(self, updates: &Vec<AttemptState>) -> (res: AttemptState)
        ensures
            res == self.spec_merge_all(updates@),
    {
        let mut state = self;
        let mut i: usize = 0;
        while i < updates.len()
            invariant
                i <= updates.len(),
                state == self.spec_merge_all(updates@.take(i as int)),
            decreases updates.len() - i,
        {
            assert(updates@.take(i + 1).drop_last() =~= updates@.take(i as int));
            state = state.merge(updates[i]);
            i += 1;
        }
        assert(updates@.take(i as int) =~= updates@);
        state
    }
}

/// What an authorization comes to: with manual capture the payment waits
/// for its capture as `Authorized`; with automatic capture the
/// authorization is the end of the payment, `Charged`.
///
/// Every connector's status mapping resolves its "authorized" status
/// through this one rule.
pub open spec fn spec_authorized_status(is_manual_capture: bool) -> AttemptStatus {
    if is_manual_capture {
        AttemptStatus::Authorized
    } else {
        AttemptStatus::Charged
    }
}

/// The status of a payment that a connector reports as authorized.
pub fn authorized_status(is_manual_capture: bool) -> (res: AttemptStatus)
    ensures
        res == spec_authorized_status(is_manual_capture),
{
    if is_manual_capture {
        AttemptStatus::Authorized
    } else {
        AttemptStatus::Charged
    }
}

/// A merge changes nothing once the attempt is terminal.
pub proof fn lemma_merge_keeps_terminal(state: AttemptState, incoming: AttemptState)
    requires
        state.status.spec_is_terminal(),
    ensures
        state.spec_merge(incoming) == state,
{
}

/// A merge never leaves a state that is neither the current nor the
/// incoming one.
pub proof fn lemma_merge_picks_one(state: AttemptState, incoming: AttemptState)
    ensures
        state.spec_merge(incoming) == state || state.spec_merge(incoming) == incoming,
{
}

/// A state that moves a pending attempt forward is always taken, whoever
/// reports it.
pub proof fn lemma_merge_takes_progress(state: AttemptState, incoming: AttemptState)
    requires
        !state.status.spec_is_terminal(),
        incoming.status.spec_rank() > state.status.spec_rank(),
    ensures
        state.spec_merge(incoming) == incoming,
{
}

/// A webhook only moves an attempt forward: merging a state that a
/// webhook reports either leaves the current state as it is, or takes a
/// status that ranks higher.
pub proof fn lemma_webhook_only_moves_forward(state: AttemptState, incoming: AttemptState)
    requires
        incoming.source == StatusSource::Webhook,
    ensures
        state.spec_merge(incoming) == state || (state.spec_merge(incoming) == incoming
            && incoming.status.spec_rank() > state.status.spec_rank()),
        state.spec_merge(incoming).status.spec_rank() >= state.status.spec_rank(),
{
}

/// A run of webhooks never takes an attempt back: whatever the webhooks
/// report and in whatever order, the status at the end ranks at least as
/// high as the status at the start.
pub proof fn lemma_webhooks_never_lower_the_rank(start: AttemptState, updates: Seq<AttemptState>)
    requires
        forall|i: int| 0 <= i < updates.len() ==> (#[trigger] updates[i]).source
            == StatusSource::Webhook,
    ensures
        start.spec_merge_all(updates).status.spec_rank() >= start.status.spec_rank(),
    decreases updates.len(),
{
    if updates.len() > 0 {
        lemma_webhooks_never_lower_the_rank(start, updates.drop_last());
        lemma_webhook_only_moves_forward(
            start.spec_merge_all(updates.drop_last()),
            updates.last(),
        );
    }
}

/// Status monotonicity: once a run of merges has reached a terminal status,
/// no later merge changes the state. For every way of cutting `updates` in
/// two, if the first part ends in a terminal state, the whole run ends in
/// that same state.
pub proof fn lemma_terminal_status_is_final(
    start: AttemptState,
    updates: Seq<AttemptState>,
    reached: int,
)
    requires
        0 <= reached <= updates.len(),
        start.spec_merge_all(updates.take(reached)).status.spec_is_terminal(),
    ensures
        start.spec_merge_all(updates) == start.spec_merge_all(updates.take(reached)),
    decreases updates.len() - reached,
{
    if reached == updates.len() {
        assert(updates.take(reached) =~= updates);
    } else {
        let shorter = updates.drop_last();
        assert(shorter.take(reached) =~= updates.take(reached));
        lemma_terminal_status_is_final(start, shorter, reached);
    }
}

} // verus!
