//! Undo state management -- timed undo for inbox actions.
//!
//! When a user marks a thread as Done or sweeps, the action is applied
//! optimistically and a snackbar offers "Undo". Clicking it within the
//! timeout (7 seconds by default) reverses the action; otherwise it commits.

use std::time::{Duration, Instant};

use vstd::prelude::*;

use crate::text::{decimal, decimal_string, owned, push_str};

verus! {

#[verifier::external_type_specification]
#[verifier::external_body]
pub struct ExInstant(Instant);

/// Default undo timeout in seconds (matching Google Inbox).
pub const UNDO_TIMEOUT_SECS: u64 = 7;

/// Nanoseconds in a second.
pub const NANOS_PER_SEC: u128 = 1_000_000_000;

/// The length of a duration in nanoseconds, as `Duration::as_nanos` reports it.
pub uninterp spec fn duration_nanos(d: Duration) -> nat;

/// `Duration::as_nanos`: the whole duration in nanoseconds.
#[verifier::external_body]
pub(crate) fn duration_as_nanos(d: &Duration) -> (r: u128)
    ensures
        r as int == duration_nanos(*d),
{
    d.as_nanos()
}

/// `Duration::from_secs`: a duration of exactly `secs` seconds.
#[verifier::external_body]
pub(crate) fn duration_from_secs(secs: u64) -> (r: Duration)
    ensures
        duration_nanos(r) == secs as int * NANOS_PER_SEC as int,
{
    Duration::from_secs(secs)
}

/// `Duration::saturating_sub`: `a - b`, or zero when `b` is the longer.
#[verifier::external_body]
pub(crate) fn duration_saturating_sub(a: Duration, b: Duration) -> (r: Duration)
    ensures
        duration_nanos(r) == if duration_nanos(a) >= duration_nanos(b) {
            (duration_nanos(a) - duration_nanos(b)) as nat
        } else {
            0nat
        },
{
    a.saturating_sub(b)
}

/// `Instant::now`: the current instant of the monotonic clock.
#[verifier::external_body]
pub(crate) fn instant_now() -> Instant {
    Instant::now()
}

/// `Instant::elapsed`: time since `start`; it depends on the clock, so
/// nothing is stated of its length.
#[verifier::external_body]
pub(crate) fn instant_elapsed(start: &Instant) -> Duration {
    start.elapsed()
}

/// The undo timeout as a `Duration`.
pub fn undo_timeout() -> (r: Duration)
    ensures
        duration_nanos(r) == UNDO_TIMEOUT_SECS as int * NANOS_PER_SEC as int,
{
    duration_from_secs(UNDO_TIMEOUT_SECS)
}

/// An undoable action stored while the snackbar is visible.
#[derive(Debug, Clone)]
pub enum UndoAction {
    /// A single thread was marked as Done.
    MarkDone {
        /// Thread ID that was marked done.
        thread_id: String,
    },
    /// A pin toggle was applied.
    TogglePin {
        /// Thread ID whose pin state was toggled.
        thread_id: String,
        /// The pin state *before* the toggle (true = was pinned).
        was_pinned: bool,
    },
    /// A sweep cleared all unpinned threads from the inbox.
    Sweep {
        /// Thread IDs that were marked as done by the sweep.
        thread_ids: Vec<String>,
    },
}

/// Snackbar text for an action.
pub open spec fn description_spec(a: UndoAction) -> Seq<char> {
    match a {
        UndoAction::MarkDone { .. } => "Conversation marked done"@,
        UndoAction::TogglePin { was_pinned, .. } => if was_pinned {
            "Unpinned"@
        } else {
            "Pinned"@
        },
        UndoAction::Sweep { thread_ids } => if thread_ids@.len() == 1 {
            "1 conversation marked done"@
        } else {
            decimal(thread_ids@.len()) + " conversations marked done"@
        },
    }
}

impl UndoAction {
    /// Human-readable description for the undo snackbar.
    pub fn description(&self) -> (r: String)
        ensures
            r@ == description_spec(*self),
    {
        match self {
            UndoAction::MarkDone { .. } => owned("Conversation marked done"),
            UndoAction::TogglePin { was_pinned, .. } => {
                if *was_pinned {
                    owned("Unpinned")
                } else {
                    owned("Pinned")
                }
            },
            UndoAction::Sweep { thread_ids } => {
                let count = thread_ids.len();
                if count == 1 {
                    owned("1 conversation marked done")
                } else {
                    let mut s = decimal_string(count as u64);
                    push_str(&mut s, " conversations marked done");
                    s
                }
            },
        }
    }
}

/// Current undo state -- either empty or holding an undoable action.
#[derive(Debug, Clone)]
pub struct UndoState {
    /// The pending undoable action, if any.
    action: Option<UndoAction>,
    /// When the undo window started.
    started_at: Option<Instant>,
    /// Counter incremented (wrapping) on each `push`.
    ///
    /// The expiry timer captures it when spawned and compares it when
    /// firing; a mismatch means a newer action replaced the one the timer
    /// was spawned for, so the timer does nothing.
    generation: u64,
}

impl UndoState {
    /// The pending action, if any.
    pub closed spec fn pending(self) -> Option<UndoAction> {
        self.action
    }

    /// Whether an undo window is running.
    pub closed spec fn timed(self) -> bool {
        self.started_at is Some
    }

    /// The push counter.
    pub closed spec fn gen(self) -> u64 {
        self.generation
    }

    /// An action is pending exactly while its undo window runs.
    pub open spec fn well_formed(self) -> bool {
        self.pending() is Some <==> self.timed()
    }

    /// Create empty undo state.
    pub fn new() -> (s: Self)
        ensures
            s.pending() is None,
            !s.timed(),
            s.gen() == 0,
    {
        UndoState { action: None, started_at: None, generation: 0 }
    }

    /// Record an undoable action, starting its undo window at `started`.
    /// Replaces any existing pending action (which is implicitly committed).
    pub fn push_at(&mut self, action: UndoAction, started: Instant)
        ensures
            final(self).pending() == Some(action),
            final(self).timed(),
            final(self).gen() == old(self).gen().wrapping_add(1),
    {
        self.generation = self.generation.wrapping_add(1);
        self.action = Some(action);
        self.started_at = Some(started);
    }

    /// Record an undoable action, starting its undo window now.
    /// Replaces any existing pending action (which is implicitly committed).
    pub fn push(&mut self, action: UndoAction)
        ensures
            final(self).pending() == Some(action),
            final(self).timed(),
            final(self).gen() == old(self).gen().wrapping_add(1),
    {
        let now = instant_now();
        self.push_at(action, now);
    }

    /// Return the current generation counter.
    pub fn generation(&self) -> (r: u64)
        ensures
            r == self.gen(),
    {
        self.generation
    }

    /// Take the pending action, given whether its undo window has expired.
    /// An expired action is dropped rather than returned. Either way the
    /// state is left empty and the generation unchanged.
    pub fn take_checked(&mut self, expired: bool) -> (r: Option<UndoAction>)
        ensures
            r == if expired {
                None
            } else {
                old(self).pending()
            },
            final(self).pending() is None,
            !final(self).timed(),
            final(self).gen() == old(self).gen(),
    {
        if expired {
            self.clear();
            return None;
        }
        let action = self.action.take();
        self.started_at = None;
        action
    }

    /// Take the pending action (for undo). Returns `None` if there is no
    /// action or if its window has expired.
    pub fn take(&mut self) -> (r: Option<UndoAction>)
        ensures
            r is None || r == old(self).pending(),
            !old(self).timed() ==> r == old(self).pending(),
            exists|elapsed: Duration|
                r == if expired_spec(*old(self), elapsed) {
                    None
                } else {
                    old(self).pending()
                },
            final(self).pending() is None,
            !final(self).timed(),
            final(self).gen() == old(self).gen(),
    {
        let expired = self.is_expired();
        self.take_checked(expired)
    }

    /// Whether an action is pending and, by the given expiry, still live.
    pub fn is_active_checked(&self, expired: bool) -> (r: bool)
        ensures
            r == (self.pending() is Some && !expired),
    {
        self.action.is_some() && !expired
    }

    /// Whether an undo action is pending and not expired.
    pub fn is_active(&self) -> (r: bool)
        ensures
            r ==> self.pending() is Some,
            self.pending() is Some && !self.timed() ==> r,
            exists|elapsed: Duration| r == (self.pending() is Some && !expired_spec(*self, elapsed)),
    {
        let expired = self.is_expired();
        self.is_active_checked(expired)
    }

    /// The snackbar text for the pending action, given whether it expired.
    pub fn description_checked(&self, expired: bool) -> (r: Option<String>)
        ensures
            match r {
                Some(d) => !expired && self.pending() is Some && d@ == description_spec(
                    self.pending()->0,
                ),
                None => expired || self.pending() is None,
            },
    {
        if self.is_active_checked(expired) {
            match &self.action {
                Some(a) => Some(a.description()),
                None => None,
            }
        } else {
            None
        }
    }

    /// Get the description text for the snackbar.
    pub fn description(&self) -> (r: Option<String>)
        ensures
            match r {
                Some(d) => self.pending() is Some && d@ == description_spec(self.pending()->0),
                None => self.pending() is None || self.timed(),
            },
    {
        let expired = self.is_expired();
        self.description_checked(expired)
    }

    /// Clear the undo state (action committed or expired).
    pub fn clear(&mut self)
        ensures
            final(self).pending() is None,
            !final(self).timed(),
            final(self).gen() == old(self).gen(),
    {
        self.action = None;
        self.started_at = None;
    }

    /// Whether the undo window has expired once `elapsed` has passed since
    /// it started: a running window expires when the undo timeout (7 s) has
    /// passed.
    pub fn expired_after(&self, elapsed: &Duration) -> (r: bool)
        ensures
            r == expired_spec(*self, *elapsed),
    {
        match &self.started_at {
            Some(_) => duration_as_nanos(elapsed) >= UNDO_TIMEOUT_SECS as u128 * NANOS_PER_SEC,
            None => false,
        }
    }

    /// Whether the undo window has expired, by the monotonic clock: it is
    /// [`UndoState::expired_after`] the time elapsed since the window
    /// started, which only the clock knows.
    pub fn is_expired(&self) -> (r: bool)
        ensures
            r ==> self.timed(),
            exists|elapsed: Duration| r == expired_spec(*self, elapsed),
    {
        match &self.started_at {
            Some(started) => {
                let elapsed = instant_elapsed(started);
                self.expired_after(&elapsed)
            },
            None => {
                let zero = duration_from_secs(0);
                self.expired_after(&zero)
            },
        }
    }

    /// Time left in the undo window once `elapsed` has passed since it
    /// started: the timeout less the elapsed time, or zero when it has run
    /// out or no window runs.
    pub fn remaining_after(&self, elapsed: &Duration) -> (r: Duration)
        ensures
            duration_nanos(r) == remaining_spec(*self, *elapsed),
    {
        match &self.started_at {
            Some(_) => {
                let t = undo_timeout();
                duration_saturating_sub(t, *elapsed)
            },
            None => duration_from_secs(0),
        }
    }

    /// Time remaining in the undo window (for progress display): it is
    /// [`UndoState::remaining_after`] the time elapsed since the window
    /// started, by the monotonic clock.
    pub fn time_remaining(&self) -> (r: Duration)
        ensures
            !self.timed() ==> duration_nanos(r) == 0,
            0 <= duration_nanos(r) <= UNDO_TIMEOUT_SECS as int * NANOS_PER_SEC as int,
            exists|elapsed: Duration| duration_nanos(r) == remaining_spec(*self, elapsed),
    {
        match &self.started_at {
            Some(started) => {
                let elapsed = instant_elapsed(started);
                self.remaining_after(&elapsed)
            },
            None => {
                let zero = duration_from_secs(0);
                self.remaining_after(&zero)
            },
        }
    }
}

/// The undo timeout in nanoseconds.
pub open spec fn timeout_nanos() -> int {
    UNDO_TIMEOUT_SECS as int * NANOS_PER_SEC as int
}

/// Whether a window has expired after `elapsed`: it runs and the timeout
/// has passed.
pub open spec fn expired_spec(s: UndoState, elapsed: Duration) -> bool {
    s.timed() && duration_nanos(elapsed) >= timeout_nanos()
}

/// Nanoseconds left of a window after `elapsed`: the timeout less the
/// elapsed time, at least zero; zero when no window runs.
pub open spec fn remaining_spec(s: UndoState, elapsed: Duration) -> int {
    if s.timed() && duration_nanos(elapsed) < timeout_nanos() {
        timeout_nanos() - duration_nanos(elapsed)
    } else {
        0
    }
}

/// The time left never grows as time passes: of two readings of the
/// elapsed time, the later (larger) one leaves no more time than the
/// earlier, and it never exceeds the timeout.
pub proof fn law_remaining_shrinks(s: UndoState, earlier: Duration, later: Duration)
    requires
        duration_nanos(earlier) <= duration_nanos(later),
    ensures
        0 <= remaining_spec(s, later) <= remaining_spec(s, earlier) <= timeout_nanos(),
{
}

/// A running window has expired exactly when no time is left in it.
pub proof fn law_expired_iff_no_time_left(s: UndoState, elapsed: Duration)
    requires
        s.timed(),
    ensures
        expired_spec(s, elapsed) <==> remaining_spec(s, elapsed) == 0,
{
}

impl Default for UndoState {
    fn default() -> (s: Self)
        ensures
            s.pending() is None,
            !s.timed(),
            s.gen() == 0,
    {
        Self::new()
    }
}

/// A call that changes an undo state: `push`, `take` or `clear`.
#[derive(Debug, Clone, Copy, PartialEq, Eq, Structural)]
pub enum UndoOp {
    Push,
    Take,
    Clear,
}

/// What one call does to the generation counter, as each call's contract
/// states it: `push` adds one (wrapping), `take` and `clear` keep it.
pub open spec fn generation_step(s1: UndoState, op: UndoOp, s2: UndoState) -> bool {
    match op {
        UndoOp::Push => s2.gen() == s1.gen().wrapping_add(1),
        _ => s2.gen() == s1.gen(),
    }
}

/// The number of pushes among the calls.
pub open spec fn push_count(ops: Seq<UndoOp>) -> nat
    decreases ops.len(),
{
    if ops.len() == 0 {
        0
    } else {
        push_count(ops.drop_last()) + if ops.last() == UndoOp::Push {
            1nat
        } else {
            0nat
        }
    }
}

/// The generation counts pushes modulo 2^64: from a fresh state, after any
/// sequence of `push`, `take` and `clear` calls, it is the number of pushes
/// modulo 2^64.
pub proof fn law_generation_counts_pushes(states: Seq<UndoState>, ops: Seq<UndoOp>)
    requires
        states.len() == ops.len() + 1,
        states[0].gen() == 0,
        forall|i: int| 0 <= i < ops.len() ==> generation_step(states[i], #[trigger] ops[i], states[i + 1]),
    ensures
        states.last().gen() == push_count(ops) % 0x1_0000_0000_0000_0000,
    decreases ops.len(),
{
    if ops.len() > 0 {
        let n = ops.len() - 1;
        let s0 = states.drop_last();
        let o0 = ops.drop_last();
        assert forall|i: int| 0 <= i < o0.len() implies generation_step(s0[i], #[trigger] o0[i], s0[i + 1]) by {
            assert(o0[i] == ops[i]);
            assert(s0[i] == states[i] && s0[i + 1] == states[i + 1]);
        }
        law_generation_counts_pushes(s0, o0);
        assert(generation_step(states[n], ops[n], states[n + 1]));
        let p = push_count(o0);
        let g = states[n].gen();
        assert(g == p % 0x1_0000_0000_0000_0000);
        if ops[n] == UndoOp::Push {
            assert((p + 1) % 0x1_0000_0000_0000_0000 == if g == u64::MAX { 0 } else { g + 1 }) by (nonlinear_arith)
                requires
                    g == p % 0x1_0000_0000_0000_0000,
                    0 <= g <= u64::MAX,
                    u64::MAX == 0xffff_ffff_ffff_ffff,
                    p >= 0;
        }
    }
}

} // verus!
