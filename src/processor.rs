use vstd::prelude::*;

use crate::debounce::{issues_reset, next_debounce, Debounce};

verus! {

/// What one update cycle reports to its caller.
#[derive(Debug, Clone, Copy, PartialEq, Eq, Structural)]
pub enum UpdateState {
    /// The stack made progress, or its poll failed and may have changed state.
    Updated,
    /// The stack polled cleanly and had nothing to do.
    NoChange,
}

/// Status that a stack poll outcome maps to: progress or an error report
/// `Updated`, a clean poll without progress reports `NoChange`.
pub open spec fn status_of<E>(poll: Result<bool, E>) -> UpdateState {
    match poll {
        Ok(false) => UpdateState::NoChange,
        _ => UpdateState::Updated,
    }
}

/// What the caller of one update cycle must do, and what it reports.
#[derive(Debug, Clone, Copy, PartialEq, Eq, Structural)]
pub struct TickActions {
    /// The status to report for this cycle.
    pub status: UpdateState,
    /// Whether the stack's link-dependent state must be reset.
    pub reset_link: bool,
    /// Whether the poll error must be logged as a diagnostic.
    pub log_error: bool,
}

/// The decisions of one cycle, from the debounce state before it, the stack
/// poll outcome and the link reading.
pub open spec fn tick_actions<E>(state: Debounce, poll: Result<bool, E>, link_present: bool) -> TickActions {
    TickActions {
        status: status_of(poll),
        reset_link: issues_reset(state, link_present),
        log_error: poll is Err,
    }
}

/// Maps a stack poll outcome to the status of the cycle.
pub fn poll_status<E>(poll: &Result<bool, E>) -> (r: UpdateState)
    ensures
        r == status_of(*poll),
{
    match poll {
        Ok(true) => UpdateState::Updated,
        Ok(false) => UpdateState::NoChange,
        Err(_) => UpdateState::Updated,
    }
}

/// The update cycle: owns the stack, the PHY monitor and the clock, and the
/// debounce flag for link-loss resets.
pub struct NetworkProcessor<S, P, C> {
    /// The network stack, polled once per cycle.
    pub stack: S,
    /// The PHY monitor, read once per cycle after the stack poll.
    pub phy: P,
    /// The millisecond time source handed to the stack poll.
    pub clock: C,
    /// Set once a reset has been issued for the current streak of lost-link
    /// readings, cleared by a reading with the link present.
    pub network_was_reset: bool,
}

impl<S, P, C> NetworkProcessor<S, P, C> {
    /// The debounce state: `Fired` while a reset has been issued for the
    /// current streak of lost-link readings.
    pub open spec fn debounce(&self) -> Debounce {
        if self.network_was_reset {
            Debounce::Fired
        } else {
            Debounce::Armed
        }
    }

    /// Takes ownership of the three collaborators; the link is assumed present.
    pub fn new(stack: S, phy: P, clock: C) -> (r: Self)
        ensures
            r.stack == stack,
            r.phy == phy,
            r.clock == clock,
            r.debounce() == Debounce::Armed,
    {
        Self { stack, phy, clock, network_was_reset: false }
    }

    /// Records one link reading and returns whether the stack must be reset.
    pub fn observe_link(&mut self, link_present: bool) -> (reset: bool)
        ensures
            reset == issues_reset(old(self).debounce(), link_present),
            final(self).debounce() == next_debounce(old(self).debounce(), link_present),
            final(self).stack == old(self).stack,
            final(self).phy == old(self).phy,
            final(self).clock == old(self).clock,
    {
        if link_present {
            self.network_was_reset = false;
            false
        } else if !self.network_was_reset {
            self.network_was_reset = true;
            true
        } else {
            false
        }
    }

    /// Decides one cycle from the stack poll outcome (taken first, with the
    /// clock's current time) and the link reading (taken after it). The status
    /// comes from the poll alone; a reset is issued when the link is lost and
    /// the debounce is armed.
    pub fn update<E>(&mut self, poll: &Result<bool, E>, link_present: bool) -> (r: TickActions)
        ensures
            r == tick_actions(old(self).debounce(), *poll, link_present),
            final(self).debounce() == next_debounce(old(self).debounce(), link_present),
            final(self).stack == old(self).stack,
            final(self).phy == old(self).phy,
            final(self).clock == old(self).clock,
    {
        let status = poll_status(poll);
        let log_error = poll.is_err();
        let reset_link = self.observe_link(link_present);
        TickActions { status, reset_link, log_error }
    }
}

/// A poll with progress reports `Updated`, a clean poll without progress
/// reports `NoChange`, and a failed poll reports `Updated` and asks for one
/// diagnostic log entry; whether a reset is issued does not depend on the poll.
pub proof fn lemma_status_mapping<E>(state: Debounce, poll: Result<bool, E>, other: Result<bool, E>, link_present: bool)
    ensures
        poll == Ok::<bool, E>(true) ==> tick_actions(state, poll, link_present).status == UpdateState::Updated
            && !tick_actions(state, poll, link_present).log_error,
        poll == Ok::<bool, E>(false) ==> tick_actions(state, poll, link_present).status == UpdateState::NoChange
            && !tick_actions(state, poll, link_present).log_error,
        poll is Err ==> tick_actions(state, poll, link_present).status == UpdateState::Updated
            && tick_actions(state, poll, link_present).log_error,
        tick_actions(state, poll, link_present).reset_link == tick_actions(state, other, link_present).reset_link,
{
}

/// Issuing a reset never changes the status of the same cycle: the status is
/// the poll's alone, so a clean idle poll with the link lost and the debounce
/// armed reports `NoChange` and issues a reset.
pub proof fn lemma_reset_keeps_status<E>(state: Debounce, poll: Result<bool, E>, link_present: bool)
    ensures
        tick_actions(state, poll, link_present).status == status_of(poll),
        tick_actions(state, poll, link_present).status == tick_actions(Debounce::Fired, poll, true).status,
        (state == Debounce::Armed && poll == Ok::<bool, E>(false) && !link_present) ==> (
            tick_actions(state, poll, link_present).status == UpdateState::NoChange
            && tick_actions(state, poll, link_present).reset_link),
{
}

/// A cycle with the link present leaves the debounce armed whatever it was, so
/// the next cycle with the link lost issues a reset.
pub proof fn lemma_present_rearms<E>(state: Debounce, next_poll: Result<bool, E>)
    ensures
        next_debounce(state, true) == Debounce::Armed,
        tick_actions(next_debounce(state, true), next_poll, false).reset_link,
{
}

/// A freshly built processor is armed: its first cycle with the link lost
/// issues a reset.
pub proof fn lemma_first_loss_resets<S, P, C, E>(p: NetworkProcessor<S, P, C>, poll: Result<bool, E>)
    requires
        p.debounce() == Debounce::Armed,
    ensures
        tick_actions(p.debounce(), poll, false).reset_link,
        next_debounce(p.debounce(), false) == Debounce::Fired,
{
}

} // verus!
