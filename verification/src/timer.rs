//! The phase state machine: a work or break countdown over wall-clock
//! timestamps supplied by the caller in whole seconds.
//!
//! A phase is either running (`start` holds a virtual start timestamp) or
//! paused (`paused` holds the banked elapsed seconds). Resuming shifts the
//! virtual start backward by the banked amount, so elapsed time is always a
//! single subtraction while running, no matter how many pause/resume cycles
//! came before.

use vstd::prelude::*;
use vstd::arithmetic::div_mod::{
    lemma_div_is_ordered, lemma_div_multiples_vanish, lemma_fundamental_div_mod,
};
use vstd::arithmetic::mul::lemma_mul_inequality;

use crate::display::{format_mmss, spec_mmss};
use crate::percent::Percent;

verus! {

/// Which kind of interval a phase counts down.
#[derive(Clone, Copy, Debug, PartialEq, Eq, Structural)]
pub enum PhaseKind {
    Work,
    Break,
}

/// The identity of the color the UI shows for a phase: one base color per
/// kind, grayed out while the phase is paused. The renderer owns the actual
/// gray-out transform; this type only fixes which color is meant.
#[derive(Clone, Copy, Debug, PartialEq, Eq, Structural)]
pub struct PhaseColor {
    pub red: u8,
    pub green: u8,
    pub blue: u8,
    pub grayed: bool,
}

/// The label the UI shows under the countdown for each phase kind.
pub open spec fn spec_phase_label(kind: PhaseKind) -> Seq<char> {
    match kind {
        PhaseKind::Work => "Work"@,
        PhaseKind::Break => "Break"@,
    }
}

/// `a - b`, saturating at zero.
pub open spec fn spec_sat_sub(a: u64, b: u64) -> u64 {
    if a >= b {
        (a - b) as u64
    } else {
        0
    }
}

/// One work or break countdown interval with a fixed target length in
/// seconds.
pub struct PomodoroPhase {
    kind: PhaseKind,
    start: Option<u64>,
    length: u64,
    paused: Option<u64>,
}

/// The percentage of a phase that remains after `elapsed` of `length`
/// seconds: `100 - clamp(100 * elapsed / length, 0, 100)`. A zero-length
/// phase counts as already expired.
pub open spec fn spec_percent_remaining(elapsed: int, length: int) -> int {
    if length <= 0 {
        0
    } else if 100 * elapsed / length >= 100 {
        0
    } else {
        100 - 100 * elapsed / length
    }
}

impl PomodoroPhase {
    /// Exactly one elapsed-time source is live at any time: the virtual
    /// start timestamp while running, the banked amount while paused.
    #[verifier::type_invariant]
    pub closed spec fn wf(self) -> bool {
        self.start is Some <==> self.paused is None
    }

    /// The phase's kind.
    pub closed spec fn spec_kind(self) -> PhaseKind {
        self.kind
    }

    /// The phase's fixed target length in seconds.
    pub closed spec fn spec_length(self) -> u64 {
        self.length
    }

    /// The virtual start timestamp, present exactly while running.
    pub closed spec fn spec_start(self) -> Option<u64> {
        self.start
    }

    /// The phase is paused (its elapsed time is frozen).
    pub closed spec fn spec_is_paused(self) -> bool {
        self.paused is Some
    }

    /// The elapsed seconds banked before the most recent pause.
    pub closed spec fn spec_banked(self) -> u64 {
        match self.paused {
            Some(b) => b,
            None => 0,
        }
    }

    /// A freshly created phase: paused, nothing banked, not yet started.
    pub closed spec fn spec_new(kind: PhaseKind, length: u64) -> PomodoroPhase {
        PomodoroPhase { kind, start: None, length, paused: Some(0) }
    }

    /// The phase after a start (resume) at `now`: a paused phase becomes
    /// running with its virtual start shifted back by the banked amount;
    /// a running phase is left untouched.
    pub closed spec fn spec_started(self, now: u64) -> PomodoroPhase {
        if self.spec_is_paused() {
            PomodoroPhase {
                start: Some(spec_sat_sub(now, self.spec_banked())),
                paused: None,
                ..self
            }
        } else {
            self
        }
    }

    /// The phase after a pause at `now`: a running phase banks its elapsed
    /// time; a paused phase is left untouched.
    pub closed spec fn spec_paused_at(self, now: u64) -> PomodoroPhase {
        match self.start {
            Some(s) => PomodoroPhase {
                start: None,
                paused: Some(spec_sat_sub(now, s)),
                ..self
            },
            None => self,
        }
    }

    /// The elapsed seconds at `now`: the banked amount while paused, the
    /// time since the virtual start while running.
    pub closed spec fn spec_elapsed(self, now: u64) -> Option<u64> {
        match self.paused {
            Some(b) => Some(b),
            None => match self.start {
                Some(s) => Some(spec_sat_sub(now, s)),
                None => None,
            },
        }
    }

    /// The phase is running and its elapsed time has reached its length.
    pub open spec fn spec_expired(self, now: u64) -> bool {
        self.spec_start() is Some && match self.spec_elapsed(now) {
            Some(e) => e >= self.spec_length(),
            None => false,
        }
    }

    /// A fresh work phase of `length` seconds, paused with nothing banked.
    pub fn new_work(length: u64) -> (p: PomodoroPhase)
        ensures
            p == PomodoroPhase::spec_new(PhaseKind::Work, length),
            p.wf(),
            p.spec_kind() == PhaseKind::Work,
            p.spec_length() == length,
            p.spec_is_paused(),
            p.spec_banked() == 0,
            p.spec_start() is None,
    {
        PomodoroPhase { kind: PhaseKind::Work, start: None, length, paused: Some(0) }
    }

    /// A fresh break phase of `length` seconds, paused with nothing banked.
    pub fn new_break(length: u64) -> (p: PomodoroPhase)
        ensures
            p == PomodoroPhase::spec_new(PhaseKind::Break, length),
            p.wf(),
            p.spec_kind() == PhaseKind::Break,
            p.spec_length() == length,
            p.spec_is_paused(),
            p.spec_banked() == 0,
            p.spec_start() is None,
    {
        PomodoroPhase { kind: PhaseKind::Break, start: None, length, paused: Some(0) }
    }

    /// The phase's kind.
    pub fn get_kind(&self) -> (k: PhaseKind)
        ensures
            k == self.spec_kind(),
    {
        self.kind
    }

    /// The phase's fixed target length in seconds.
    pub fn get_duration(&self) -> (d: u64)
        ensures
            d == self.spec_length(),
    {
        self.length
    }

    /// The virtual start timestamp, `None` while paused.
    pub fn get_start(&self) -> (s: Option<u64>)
        ensures
            s == self.spec_start(),
    {
        self.start
    }

    /// Whether the phase is paused.
    pub fn is_paused(&self) -> (r: bool)
        ensures
            r == self.spec_is_paused(),
    {
        self.paused.is_some()
    }

    /// Starts (or resumes) the phase at `now`. The banked elapsed time is
    /// re-expressed by shifting the virtual start backward, so the phase
    /// continues where it left off. A no-op while already running.
    pub fn start(&mut self, now: u64)
        ensures
            *final(self) == old(self).spec_started(now),
            final(self).wf(),
            final(self).spec_kind() == old(self).spec_kind(),
            final(self).spec_length() == old(self).spec_length(),
            old(self).spec_is_paused() ==> {
                &&& final(self).spec_start() == Some(spec_sat_sub(now, old(self).spec_banked()))
                &&& !final(self).spec_is_paused()
            },
            !old(self).spec_is_paused() ==> *final(self) == *old(self),
    {
        proof {
            use_type_invariant(&*self);
        }
        match self.paused {
            Some(banked) => {
                let virtual_start: u64 = if now >= banked {
                    now - banked
                } else {
                    0
                };
                *self = PomodoroPhase {
                    kind: self.kind,
                    start: Some(virtual_start),
                    length: self.length,
                    paused: None,
                };
            }
            None => {}
        }
    }

    /// Pauses the phase at `now`, banking the elapsed time. A no-op while
    /// already paused.
    pub fn pause(&mut self, now: u64)
        ensures
            *final(self) == old(self).spec_paused_at(now),
            final(self).wf(),
            final(self).spec_kind() == old(self).spec_kind(),
            final(self).spec_length() == old(self).spec_length(),
            old(self).spec_start() matches Some(s) ==> {
                &&& final(self).spec_is_paused()
                &&& final(self).spec_banked() == spec_sat_sub(now, s)
                &&& final(self).spec_start() is None
            },
            old(self).spec_is_paused() ==> *final(self) == *old(self),
    {
        proof {
            use_type_invariant(&*self);
        }
        match self.start {
            Some(s) => {
                let banked: u64 = if now >= s {
                    now - s
                } else {
                    0
                };
                *self = PomodoroPhase {
                    kind: self.kind,
                    start: None,
                    length: self.length,
                    paused: Some(banked),
                };
            }
            None => {}
        }
    }

    /// Starts the phase if paused, pauses it if running.
    pub fn toggle(&mut self, now: u64)
        ensures
            old(self).spec_is_paused() ==> *final(self) == old(self).spec_started(now),
            !old(self).spec_is_paused() ==> *final(self) == old(self).spec_paused_at(now),
            final(self).wf(),
    {
        if self.is_paused() {
            self.start(now);
        } else {
            self.pause(now);
        }
    }

    /// The elapsed seconds at `now`: frozen at the banked amount while
    /// paused, `now - start` while running. Never `None` for a phase that
    /// satisfies its invariant.
    pub fn time_elapsed(&self, now: u64) -> (r: Option<u64>)
        ensures
            r == self.spec_elapsed(now),
            r is Some,
            self.spec_is_paused() ==> r == Some(self.spec_banked()),
            self.spec_start() matches Some(s) ==> r == Some(spec_sat_sub(now, s)),
    {
        proof {
            use_type_invariant(self);
        }
        match self.paused {
            Some(b) => Some(b),
            None => match self.start {
                Some(s) => Some(if now >= s {
                    now - s
                } else {
                    0
                }),
                None => None,
            },
        }
    }

    /// Whether the phase is running and has reached its target length at
    /// `now`.
    pub fn is_expired(&self, now: u64) -> (r: bool)
        ensures
            r == self.spec_expired(now),
            self.spec_start() matches Some(s) ==> r == (spec_sat_sub(now, s)
                >= self.spec_length()),
            self.spec_start() is None ==> !r,
    {
        match self.get_start() {
            Some(_) => match self.time_elapsed(now) {
                Some(e) => e >= self.get_duration(),
                None => false,
            },
            None => false,
        }
    }

    /// The percentage of the phase that remains at `now`: 100 at the start,
    /// 0 once the elapsed time reaches the length (a zero-length phase
    /// counts as already expired).
    pub fn to_percent(&self, now: u64) -> (r: Option<Percent>)
        ensures
            r matches Some(p) ==> {
                &&& self.spec_elapsed(now) matches Some(e)
                &&& p.value() == spec_percent_remaining(e as int, self.spec_length() as int)
            },
            r is Some <==> self.spec_elapsed(now) is Some,
            self.spec_is_paused() ==> (r matches Some(p) && p.value() == spec_percent_remaining(
                self.spec_banked() as int,
                self.spec_length() as int,
            )),
            self.spec_start() matches Some(s) ==> (r matches Some(p) && p.value()
                == spec_percent_remaining(
                spec_sat_sub(now, s) as int,
                self.spec_length() as int,
            )),
    {
        let elapsed = match self.time_elapsed(now) {
            Some(e) => e,
            None => {
                return None;
            },
        };
        let length = self.get_duration();
        if length == 0 {
            return Some(Percent::from_valid(0));
        }
        let ratio: u128 = (elapsed as u128) * 100 / (length as u128);
        proof {
            assert((elapsed as int) * 100 == 100 * (elapsed as int)) by (nonlinear_arith);
        }
        if ratio >= 100 {
            Some(Percent::from_valid(0))
        } else {
            Some(Percent::from_valid(100 - (ratio as u8)))
        }
    }

    /// The seconds still to run at `now`: the length less the elapsed time,
    /// saturating at zero.
    pub closed spec fn spec_time_left(self, now: u64) -> u64 {
        match self.spec_elapsed(now) {
            Some(e) => spec_sat_sub(self.length, e),
            None => self.length,
        }
    }

    /// The seconds still to run at `now`, zero once the phase has expired.
    pub fn time_left(&self, now: u64) -> (r: u64)
        ensures
            r == self.spec_time_left(now),
    {
        let elapsed = match self.time_elapsed(now) {
            Some(e) => e,
            None => 0,
        };
        proof {
            use_type_invariant(self);
        }
        if self.length >= elapsed {
            self.length - elapsed
        } else {
            0
        }
    }

    /// The countdown text the UI paints in the middle of the progress
    /// ring: the remaining time at `now` as `MM:SS`.
    pub fn time_left_text(&self, now: u64) -> (r: String)
        ensures
            r@ == spec_mmss(self.spec_time_left(now) as nat),
    {
        format_mmss(self.time_left(now))
    }

    /// The text label of the phase's kind, shown under the countdown.
    pub fn label(&self) -> (r: String)
        ensures
            r@ == spec_phase_label(self.spec_kind()),
    {
        match self.kind {
            PhaseKind::Work => String::from_str("Work"),
            PhaseKind::Break => String::from_str("Break"),
        }
    }

    /// The color identity the UI shows: a green base for work, a yellow
    /// base for break, grayed out while paused.
    pub fn to_color(&self) -> (c: PhaseColor)
        ensures
            c.grayed == self.spec_is_paused(),
            self.spec_kind() == PhaseKind::Work ==> (c.red, c.green, c.blue) == (0x3au8, 0xebu8, 0x34u8),
            self.spec_kind() == PhaseKind::Break ==> (c.red, c.green, c.blue) == (0xdcu8, 0xebu8, 0x34u8),
    {
        match self.kind {
            PhaseKind::Work => PhaseColor {
                red: 0x3a,
                green: 0xeb,
                blue: 0x34,
                grayed: self.is_paused(),
            },
            PhaseKind::Break => PhaseColor {
                red: 0xdc,
                green: 0xeb,
                blue: 0x34,
                grayed: self.is_paused(),
            },
        }
    }
}

/// Running a paused phase once: starting at `t0` and pausing at `t1 >= t0`
/// banks exactly the previously banked time plus the length of the running
/// interval, provided the clock has advanced at least to the banked amount
/// (a wall clock that only grows always has).
pub proof fn lemma_run_interval_banks_elapsed(p: PomodoroPhase, t0: u64, t1: u64)
    requires
        p.wf(),
        p.spec_is_paused(),
        p.spec_banked() <= t0,
        t0 <= t1,
    ensures
        p.spec_started(t0).spec_paused_at(t1).spec_is_paused(),
        p.spec_started(t0).spec_paused_at(t1).spec_banked() == p.spec_banked() + (t1 - t0),
        p.spec_started(t0).spec_paused_at(t1).spec_kind() == p.spec_kind(),
        p.spec_started(t0).spec_paused_at(t1).spec_length() == p.spec_length(),
        p.spec_started(t0).spec_paused_at(t1).wf(),
{
}

/// The start-shift-on-resume trick accumulates: two separate running
/// intervals of lengths `t1 - t0` and `t3 - t2` bank their sum on top of
/// whatever was banked before, no matter how far apart they lie.
pub proof fn lemma_resume_accumulates(p: PomodoroPhase, t0: u64, t1: u64, t2: u64, t3: u64)
    requires
        p.wf(),
        p.spec_is_paused(),
        p.spec_banked() <= t0,
        t0 <= t1,
        t1 <= t2,
        t2 <= t3,
    ensures
        p.spec_started(t0).spec_paused_at(t1).spec_started(t2).spec_paused_at(t3).spec_banked()
            == p.spec_banked() + (t1 - t0) + (t3 - t2),
{
    let q = p.spec_started(t0).spec_paused_at(t1);
    lemma_run_interval_banks_elapsed(p, t0, t1);
    lemma_run_interval_banks_elapsed(q, t2, t3);
}

/// The remaining percentage never grows as elapsed time grows.
pub proof fn lemma_percent_antitone(e1: int, e2: int, length: int)
    requires
        0 <= e1 <= e2,
        0 < length,
    ensures
        spec_percent_remaining(e2, length) <= spec_percent_remaining(e1, length),
{
    lemma_mul_inequality(e1, e2, 100);
    assert(e1 * 100 == 100 * e1) by (nonlinear_arith);
    assert(e2 * 100 == 100 * e2) by (nonlinear_arith);
    lemma_div_is_ordered(100 * e1, 100 * e2, length);
}

/// The remaining percentage is zero exactly when the elapsed time has
/// reached the phase length.
pub proof fn lemma_percent_zero_iff_expired(e: int, length: int)
    requires
        0 <= e,
        0 < length,
    ensures
        spec_percent_remaining(e, length) == 0 <==> e >= length,
{
    if e >= length {
        lemma_mul_inequality(length, e, 100);
        assert(length * 100 == 100 * length) by (nonlinear_arith);
        assert(e * 100 == 100 * e) by (nonlinear_arith);
        lemma_div_is_ordered(100 * length, 100 * e, length);
        lemma_div_multiples_vanish(100, length);
    } else {
        lemma_fundamental_div_mod(100 * e, length);
        if 100 * e / length >= 100 {
            lemma_mul_inequality(100, 100 * e / length, length);
            assert(100 * (100 * e / length) == (100 * e / length) * 100) by (nonlinear_arith);
            assert(length * (100 * e / length) >= length * 100) by (nonlinear_arith)
                requires
                    100 * e / length >= 100,
                    length > 0,
            ;
            assert(100 * e >= 100 * length);
            lemma_mul_inequality(length, e, 100);
            assert(false) by (nonlinear_arith)
                requires
                    100 * e >= 100 * length,
                    e < length,
            ;
        }
    }
}

/// At second granularity the remaining percentage cannot fall on every
/// single tick, but it does fall strictly across every full percent
/// quantum: whenever the elapsed time grows by at least
/// `length / 100 + 1` seconds from a point before expiry.
pub proof fn lemma_percent_strictly_decreases(e1: int, e2: int, length: int)
    requires
        0 <= e1 < length,
        e1 + length / 100 + 1 <= e2,
    ensures
        spec_percent_remaining(e2, length) < spec_percent_remaining(e1, length),
{
    lemma_percent_zero_iff_expired(e1, length);
    if e2 >= length {
        lemma_percent_zero_iff_expired(e2, length);
    } else {
        lemma_mul_inequality(e1 + length / 100 + 1, e2, 100);
        assert((e1 + length / 100 + 1) * 100 == 100 * e1 + 100 * (length / 100) + 100)
            by (nonlinear_arith);
        assert(e2 * 100 == 100 * e2) by (nonlinear_arith);
        lemma_fundamental_div_mod(length, 100);
        assert(100 * e2 >= 100 * e1 + length + 1);
        let q1 = 100 * e1 / length;
        lemma_fundamental_div_mod(100 * e1, length);
        assert(100 * e2 >= length * (q1 + 1)) by (nonlinear_arith)
            requires
                100 * e2 >= 100 * e1 + length + 1,
                100 * e1 == length * q1 + (100 * e1) % length,
                (100 * e1) % length >= 0,
        ;
        lemma_div_is_ordered(length * (q1 + 1), 100 * e2, length);
        lemma_div_multiples_vanish(q1 + 1, length);
        lemma_percent_zero_iff_expired(e2, length);
    }
}

/// A phase at the moment it starts still has all of its percentage: with
/// nothing elapsed the remaining percentage is exactly 100.
pub proof fn lemma_percent_full_at_start(length: int)
    requires
        0 < length,
    ensures
        spec_percent_remaining(0, length) == 100,
{
    lemma_div_multiples_vanish(0, length);
}

} // verus!
