//! The edge event source.
//!
//! A digital input pin with its interrupt line yields rising and falling
//! edge events. A wait call arms the source for one direction; the next
//! matching physical transition resolves the wait exactly once and leaves
//! the source idle again. The source is re-armed by each wait call and does
//! not remember transitions that happened while no wait was outstanding,
//! matching edge-latched interrupt hardware.
//!
//! Transitions are numbered in arrival order. Arming records the current
//! position in that stream, so a wait can only be resolved by a transition
//! that arrives after it was armed — never by a stale one.

use vstd::prelude::*;

verus! {

/// One physical transition of the input signal.
#[derive(Clone, Copy, PartialEq, Eq, Structural, Debug)]
pub enum EdgeKind {
    /// The signal went from low to high.
    Rising,
    /// The signal went from high to low.
    Falling,
}

/// Whether a wait is outstanding, and for which direction.
#[derive(Clone, Copy, PartialEq, Eq, Structural, Debug)]
pub enum ArmState {
    /// No wait is outstanding; transitions are dropped.
    Idle,
    /// A wait for the next rising edge is outstanding.
    ArmedRising,
    /// A wait for the next falling edge is outstanding.
    ArmedFalling,
}

/// The interrupt-facing half of one input pin: at most one outstanding
/// wait, re-armed by each wait call.
pub struct EdgeSource {
    state: ArmState,
    armed_at: u64,
    seen: u64,
    last_resolved: Option<u64>,
}

impl EdgeSource {
    /// Whether a wait is outstanding, and for which direction.
    pub closed spec fn arm_state(&self) -> ArmState {
        self.state
    }

    /// How many transitions the stream had delivered when the outstanding
    /// wait was armed.
    pub closed spec fn armed_at(&self) -> u64 {
        self.armed_at
    }

    /// How many transitions the stream has delivered so far.
    pub closed spec fn seen_count(&self) -> u64 {
        self.seen
    }

    /// The stream index of the transition that resolved the most recent
    /// wait, or `None` when no wait has resolved yet.
    pub closed spec fn last_resolved(&self) -> Option<u64> {
        self.last_resolved
    }

    /// Arming never points into the future of the stream, a resolved index
    /// always lies in the past, and an outstanding wait was armed after the
    /// previous wait resolved.
    pub open spec fn wf(&self) -> bool {
        &&& self.armed_at() <= self.seen_count()
        &&& (self.last_resolved() matches Some(t) ==> t < self.seen_count())
        &&& (!(self.arm_state() is Idle) ==> (self.last_resolved() matches Some(t)
            ==> t < self.armed_at()))
    }

    /// Creates the source: idle, nothing seen, nothing resolved.
    pub fn new() -> (src: EdgeSource)
        ensures
            src.wf(),
            src.arm_state() is Idle,
            src.seen_count() == 0,
            src.last_resolved() is None,
    {
        EdgeSource { state: ArmState::Idle, armed_at: 0, seen: 0, last_resolved: None }
    }

    /// Whether no wait is outstanding.
    pub fn is_idle(&self) -> (r: bool)
        ensures
            r == (self.arm_state() is Idle),
    {
        matches!(self.state, ArmState::Idle)
    }

    /// The stream index of the transition that resolved the most recent
    /// wait, or `None` when no wait has resolved yet.
    pub fn last_resolved_index(&self) -> (r: Option<u64>)
        ensures
            r == self.last_resolved(),
    {
        self.last_resolved
    }

    /// Arms a wait for the next rising edge. Only transitions delivered
    /// from this point on can resolve it.
    pub fn arm_rising(&mut self)
        requires
            old(self).wf(),
            old(self).arm_state() is Idle,
        ensures
            final(self).wf(),
            final(self).arm_state() is ArmedRising,
            final(self).armed_at() == old(self).seen_count(),
            final(self).seen_count() == old(self).seen_count(),
            final(self).last_resolved() == old(self).last_resolved(),
    {
        self.state = ArmState::ArmedRising;
        self.armed_at = self.seen;
    }

    /// Arms a wait for the next falling edge. Only transitions delivered
    /// from this point on can resolve it.
    pub fn arm_falling(&mut self)
        requires
            old(self).wf(),
            old(self).arm_state() is Idle,
        ensures
            final(self).wf(),
            final(self).arm_state() is ArmedFalling,
            final(self).armed_at() == old(self).seen_count(),
            final(self).seen_count() == old(self).seen_count(),
            final(self).last_resolved() == old(self).last_resolved(),
    {
        self.state = ArmState::ArmedFalling;
        self.armed_at = self.seen;
    }

    /// Whether a transition of kind `kind` resolves a source in arm state
    /// `state`.
    pub open spec fn spec_resolves(state: ArmState, kind: EdgeKind) -> bool {
        ||| (state is ArmedRising && kind is Rising)
        ||| (state is ArmedFalling && kind is Falling)
    }

    /// Delivers the next physical transition from the interrupt line.
    /// It resolves the outstanding wait exactly when the direction matches;
    /// while the source is idle, or on a mismatched direction, the
    /// transition is dropped. A resolving transition is always one that
    /// arrived at or after the arming point, never a stale one.
    pub fn on_transition(&mut self, kind: EdgeKind) -> (resolved: bool)
        requires
            old(self).wf(),
            old(self).seen_count() < u64::MAX,
        ensures
            final(self).wf(),
            final(self).seen_count() == old(self).seen_count() + 1,
            resolved == Self::spec_resolves(old(self).arm_state(), kind),
            resolved ==> {
                &&& final(self).arm_state() is Idle
                &&& final(self).last_resolved() == Some(old(self).seen_count())
                &&& old(self).seen_count() >= old(self).armed_at()
            },
            !resolved ==> {
                &&& final(self).arm_state() == old(self).arm_state()
                &&& final(self).armed_at() == old(self).armed_at()
                &&& final(self).last_resolved() == old(self).last_resolved()
            },
    {
        let index = self.seen;
        self.seen = self.seen + 1;
        let resolved = match (self.state, kind) {
            (ArmState::ArmedRising, EdgeKind::Rising) => true,
            (ArmState::ArmedFalling, EdgeKind::Falling) => true,
            _ => false,
        };
        if resolved {
            self.state = ArmState::Idle;
            self.last_resolved = Some(index);
        }
        resolved
    }
}

/// Re-arming law: once a wait has resolved on the transition with stream
/// index `t`, a wait armed afterwards can only be resolved by a transition
/// delivered strictly after `t`. The resolving transition's index equals
/// the seen count at delivery, which is at least the arming point, and the
/// arming point already lies beyond `t`.
pub proof fn lemma_no_stale_resolution(src: EdgeSource, t: u64)
    requires
        src.wf(),
        !(src.arm_state() is Idle),
        src.last_resolved() == Some(t),
    ensures
        src.armed_at() > t,
        src.seen_count() > t,
{
}

} // verus!
