//! The controller the host loop drives: it holds the current phase, the
//! transition counter, the pending notifications and the durations the next
//! phases will use, and it decides every transition. The host only polls
//! the clock, renders, and forwards user actions.

use vstd::prelude::*;

use crate::notifications::{Notification, NOTIFICATION_DURATION};
use crate::stats::Stats;
use crate::timer::{PhaseKind, PomodoroPhase};

verus! {

/// A user action the host forwards into the session.
pub enum Action {
    /// Skip: force the phase transition now, without a notification.
    NextPhase,
    /// Pause the running phase, or resume the paused one.
    TogglePhase,
    /// Nothing to do this frame.
    Idle,
    /// Use this work length, in seconds, from the next work phase on.
    ModifyWorkPhaseConfig(u64),
    /// Use this break length, in seconds, from the next break phase on.
    ModifyBreakPhaseConfig(u64),
}

/// The kind the phase after a transition has.
pub open spec fn spec_opposite(kind: PhaseKind) -> PhaseKind {
    match kind {
        PhaseKind::Work => PhaseKind::Break,
        PhaseKind::Break => PhaseKind::Work,
    }
}

/// The notification text a naturally expiring phase emits.
pub open spec fn spec_done_text(kind: PhaseKind) -> Seq<char> {
    match kind {
        PhaseKind::Work => "Work Done!"@,
        PhaseKind::Break => "Break Done!"@,
    }
}

/// The notification text for the phase kind that just ended.
fn done_text(kind: PhaseKind) -> (r: String)
    ensures
        r@ == spec_done_text(kind),
{
    match kind {
        PhaseKind::Work => String::from_str("Work Done!"),
        PhaseKind::Break => String::from_str("Break Done!"),
    }
}

/// Filtering distributes over appending one element: the element stays
/// exactly where the predicate holds of it.
proof fn lemma_filter_push(s: Seq<Notification>, pred: spec_fn(Notification) -> bool, x: Notification)
    ensures
        s.push(x).filter(pred) == if pred(x) {
            s.filter(pred).push(x)
        } else {
            s.filter(pred)
        },
{
    reveal(Seq::filter);
    assert(s.push(x).drop_last() =~= s);
    assert(s.push(x).last() == x);
}

/// One sitting: the current phase, the transition counter, the pending
/// notifications, and the configured lengths the next phases will use.
pub struct Session {
    phase: PomodoroPhase,
    stats: Stats,
    notifications: Vec<Notification>,
    work_time: u64,
    break_time: u64,
}

impl Session {
    /// The current phase.
    pub closed spec fn spec_phase(self) -> PomodoroPhase {
        self.phase
    }

    /// The transition counter.
    pub closed spec fn spec_counter(self) -> nat {
        self.stats.0 as nat
    }

    /// The pending notifications, oldest first.
    pub closed spec fn spec_notifications(self) -> Seq<Notification> {
        self.notifications@
    }

    /// The length the next work phase will use, in seconds.
    pub closed spec fn spec_work_time(self) -> u64 {
        self.work_time
    }

    /// The length the next break phase will use, in seconds.
    pub closed spec fn spec_break_time(self) -> u64 {
        self.break_time
    }

    /// The length the phase after the current one will use: the configured
    /// length of the opposite kind.
    pub open spec fn spec_next_length(self) -> u64 {
        match spec_opposite(self.spec_phase().spec_kind()) {
            PhaseKind::Work => self.spec_work_time(),
            PhaseKind::Break => self.spec_break_time(),
        }
    }

    /// What one phase transition at `now` does: the whole phase value is
    /// replaced by a fresh, not-yet-started phase of the opposite kind with
    /// the length configured for that kind; the counter grows by exactly
    /// one; a natural expiry appends one done-notification while a skip
    /// appends none; the configured lengths keep their values.
    pub open spec fn spec_transitioned(self, post: Session, skipped: bool, now: u64) -> bool {
        &&& post.spec_phase() == PomodoroPhase::spec_new(
            spec_opposite(self.spec_phase().spec_kind()),
            self.spec_next_length(),
        )
        &&& post.spec_counter() == self.spec_counter() + 1
        &&& skipped ==> post.spec_notifications() == self.spec_notifications()
        &&& !skipped ==> {
            &&& post.spec_notifications().len() == self.spec_notifications().len() + 1
            &&& post.spec_notifications().drop_last() == self.spec_notifications()
            &&& post.spec_notifications().last().text@ == spec_done_text(
                self.spec_phase().spec_kind(),
            )
            &&& post.spec_notifications().last().time_start == now
            &&& post.spec_notifications().last().duration == NOTIFICATION_DURATION
        }
        &&& post.spec_work_time() == self.spec_work_time()
        &&& post.spec_break_time() == self.spec_break_time()
    }

    /// A fresh sitting: a not-yet-started work phase of `work_time`
    /// seconds, a zero counter, no notifications.
    pub fn new(work_time: u64, break_time: u64) -> (s: Session)
        ensures
            s.spec_phase() == PomodoroPhase::spec_new(PhaseKind::Work, work_time),
            s.spec_counter() == 0,
            s.spec_notifications() == Seq::<Notification>::empty(),
            s.spec_work_time() == work_time,
            s.spec_break_time() == break_time,
    {
        let s = Session {
            phase: PomodoroPhase::new_work(work_time),
            stats: Stats(0),
            notifications: Vec::new(),
            work_time,
            break_time,
        };
        proof {
            assert(s.spec_notifications() =~= Seq::<Notification>::empty());
        }
        s
    }

    /// The current phase, for rendering and queries.
    pub fn phase(&self) -> (p: &PomodoroPhase)
        ensures
            *p == self.spec_phase(),
    {
        &self.phase
    }

    /// Pauses or resumes the current phase at `now`; everything else keeps
    /// its value.
    pub fn toggle(&mut self, now: u64)
        ensures
            old(self).spec_phase().spec_is_paused() ==> final(self).spec_phase() == old(
                self,
            ).spec_phase().spec_started(now),
            !old(self).spec_phase().spec_is_paused() ==> final(self).spec_phase() == old(
                self,
            ).spec_phase().spec_paused_at(now),
            final(self).spec_counter() == old(self).spec_counter(),
            final(self).spec_notifications() == old(self).spec_notifications(),
            final(self).spec_work_time() == old(self).spec_work_time(),
            final(self).spec_break_time() == old(self).spec_break_time(),
    {
        self.phase.toggle(now);
    }

    /// The transition counter's display values, `(ordinal, total)`.
    pub fn get_phase_count(&self) -> (r: (i8, i8))
        ensures
            r.0 == crate::stats::spec_phase_ordinal(self.spec_counter()),
            r.1 == 2,
    {
        self.stats.get_phase_count()
    }

    /// The number of completed work/break pairs.
    pub fn get_count(&self) -> (r: usize)
        ensures
            r == crate::stats::spec_pair_count(self.spec_counter()),
    {
        self.stats.get_count()
    }

    /// The stats bar text for this sitting.
    pub fn stats_text(&self) -> (r: String)
        ensures
            r@ == crate::stats::spec_stats_line(self.spec_counter()),
    {
        self.stats.to_text()
    }

    /// The pending notifications, oldest first.
    pub fn notifications(&self) -> (r: &Vec<Notification>)
        ensures
            r@ == self.spec_notifications(),
    {
        &self.notifications
    }

    /// Replaces the whole phase with a fresh one of the opposite kind, in
    /// its not-yet-started state, counts the transition, and emits the
    /// done-notification unless the transition was a skip.
    pub fn next_phase(&mut self, skipped: bool, now: u64)
        requires
            old(self).spec_counter() < usize::MAX,
        ensures
            old(self).spec_transitioned(*final(self), skipped, now),
    {
        let kind = self.phase.get_kind();
        let length = match kind {
            PhaseKind::Work => self.break_time,
            PhaseKind::Break => self.work_time,
        };
        self.phase = match kind {
            PhaseKind::Work => PomodoroPhase::new_break(length),
            PhaseKind::Break => PomodoroPhase::new_work(length),
        };
        if !skipped {
            let ghost before = self.notifications@;
            self.notifications.push(Notification::new(done_text(kind), now));
            proof {
                assert(self.notifications@.drop_last() =~= before);
            }
        }
        self.stats.increment();
    }

    /// Detects natural expiry: where the phase is running and its elapsed
    /// time has reached its length at `now`, the transition happens with
    /// its notification and the host is told to play the completion chime;
    /// otherwise nothing changes.
    pub fn check_time(&mut self, now: u64) -> (expired: bool)
        requires
            old(self).spec_counter() < usize::MAX,
        ensures
            expired == old(self).spec_phase().spec_expired(now),
            expired ==> old(self).spec_transitioned(*final(self), false, now),
            !expired ==> *final(self) == *old(self),
    {
        if self.phase.is_expired(now) {
            self.next_phase(false, now);
            true
        } else {
            false
        }
    }

    /// Performs one forwarded user action at `now`: a skip transitions
    /// without a notification, a toggle pauses or resumes, a duration
    /// change takes effect from the next phase of that kind on, and `Idle`
    /// changes nothing.
    pub fn apply(&mut self, action: Action, now: u64)
        requires
            old(self).spec_counter() < usize::MAX,
        ensures
            match action {
                Action::NextPhase => old(self).spec_transitioned(*final(self), true, now),
                Action::TogglePhase => {
                    &&& old(self).spec_phase().spec_is_paused() ==> final(self).spec_phase() == old(
                        self,
                    ).spec_phase().spec_started(now)
                    &&& !old(self).spec_phase().spec_is_paused() ==> final(self).spec_phase()
                        == old(self).spec_phase().spec_paused_at(now)
                    &&& final(self).spec_counter() == old(self).spec_counter()
                    &&& final(self).spec_notifications() == old(self).spec_notifications()
                    &&& final(self).spec_work_time() == old(self).spec_work_time()
                    &&& final(self).spec_break_time() == old(self).spec_break_time()
                },
                Action::Idle => *final(self) == *old(self),
                Action::ModifyWorkPhaseConfig(d) => {
                    &&& final(self).spec_work_time() == d
                    &&& final(self).spec_break_time() == old(self).spec_break_time()
                    &&& final(self).spec_phase() == old(self).spec_phase()
                    &&& final(self).spec_counter() == old(self).spec_counter()
                    &&& final(self).spec_notifications() == old(self).spec_notifications()
                },
                Action::ModifyBreakPhaseConfig(d) => {
                    &&& final(self).spec_break_time() == d
                    &&& final(self).spec_work_time() == old(self).spec_work_time()
                    &&& final(self).spec_phase() == old(self).spec_phase()
                    &&& final(self).spec_counter() == old(self).spec_counter()
                    &&& final(self).spec_notifications() == old(self).spec_notifications()
                },
            },
    {
        match action {
            Action::NextPhase => self.next_phase(true, now),
            Action::TogglePhase => self.toggle(now),
            Action::Idle => {},
            Action::ModifyWorkPhaseConfig(d) => {
                self.work_time = d;
            },
            Action::ModifyBreakPhaseConfig(d) => {
                self.break_time = d;
            },
        }
    }

    /// Drops every notification whose lifetime has passed at `now`,
    /// keeping the rest in order; everything else keeps its value.
    pub fn expire_notifications(&mut self, now: u64)
        ensures
            final(self).spec_notifications() == old(self).spec_notifications().filter(
                |n: Notification| !n.spec_expired(now),
            ),
            final(self).spec_phase() == old(self).spec_phase(),
            final(self).spec_counter() == old(self).spec_counter(),
            final(self).spec_work_time() == old(self).spec_work_time(),
            final(self).spec_break_time() == old(self).spec_break_time(),
    {
        let ghost pred: spec_fn(Notification) -> bool = |n: Notification| !n.spec_expired(now);
        let ghost orig = self.notifications@;
        let mut kept: Vec<Notification> = Vec::new();
        let mut i: usize = 0;
        proof {
            reveal(Seq::filter);
            assert(kept@ =~= orig.subrange(0, 0).filter(pred));
        }
        while i < self.notifications.len()
            invariant
                pred == (|n: Notification| !n.spec_expired(now)),
                i <= self.notifications.len(),
                self.notifications@ == orig,
                kept@ == orig.subrange(0, i as int).filter(pred),
            decreases self.notifications.len() - i,
        {
            let n = &self.notifications[i];
            let ghost prefix = orig.subrange(0, i as int);
            if !n.is_expired(now) {
                let copy = Notification {
                    time_start: n.time_start,
                    duration: n.duration,
                    text: n.text.clone(),
                };
                proof {
                    assert(copy == orig[i as int]);
                }
                kept.push(copy);
            }
            proof {
                assert(orig.subrange(0, i + 1 as int) =~= prefix.push(orig[i as int]));
                lemma_filter_push(prefix, pred, orig[i as int]);
                assert(kept@ =~= orig.subrange(0, i + 1 as int).filter(pred));
            }
            i = i + 1;
        }
        proof {
            assert(orig.subrange(0, orig.len() as int) =~= orig);
        }
        self.notifications = kept;
    }

    /// Removes the notification at `index`, the one the user clicked away.
    pub fn dismiss_notification(&mut self, index: usize)
        requires
            index < old(self).spec_notifications().len(),
        ensures
            final(self).spec_notifications() == old(self).spec_notifications().remove(index as int),
            final(self).spec_phase() == old(self).spec_phase(),
            final(self).spec_counter() == old(self).spec_counter(),
            final(self).spec_work_time() == old(self).spec_work_time(),
            final(self).spec_break_time() == old(self).spec_break_time(),
    {
        self.notifications.remove(index);
    }

    /// The length the next work phase will use, in seconds.
    pub fn work_time(&self) -> (r: u64)
        ensures
            r == self.spec_work_time(),
    {
        self.work_time
    }

    /// The length the next break phase will use, in seconds.
    pub fn break_time(&self) -> (r: u64)
        ensures
            r == self.spec_break_time(),
    {
        self.break_time
    }
}

} // verus!
