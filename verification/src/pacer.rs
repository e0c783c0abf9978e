//! Fixed-timestep frame pacing, the heart of the engine's event loop:
//! wall-clock frame deltas are snapped to nearby refresh-rate periods,
//! folded into an accumulator, and paid out as zero or more fixed-size
//! simulation steps per rendered frame, with a reset that keeps a stalled
//! program from spiralling.
//!
//! Time is measured in pacer units of 1/720000 second: the period of
//! every refresh rate the pacer snaps to (15, 30, 60, 120, 144 Hz) and
//! the 1/60 s simulation step are then exact integers.

use vstd::prelude::*;

verus! {

/// Pacer time units per second.
pub const UNITS_PER_SECOND: u64 = 720000;

/// One simulation step: 1/60 second.
pub const DT: u64 = 12000;

/// Half-width of the window within which a frame delta snaps to a
/// refresh period: 0.0002 second.
pub const DT_FUDGE_AMOUNT: u64 = 144;

/// A frame delta beyond five steps is treated as a stall: the backlog is
/// discarded and exactly one step is queued.
pub const DT_MAX: u64 = 60000;

/// One snapping test: a delta strictly within the fudge window of a
/// refresh period becomes that period.
pub open spec fn snap_one(e: int, s: int) -> int {
    if s - DT_FUDGE_AMOUNT < e < s + DT_FUDGE_AMOUNT {
        s
    } else {
        e
    }
}

/// A frame delta after the snap pass: the periods of 15, 30, 60, 120 and
/// 144 Hz are tried in that order. The windows are far apart, so at most
/// one test fires.
pub open spec fn snap_elapsed(e: int) -> int {
    snap_one(snap_one(snap_one(snap_one(snap_one(e, 48000), 24000), 12000), 6000), 5000)
}

/// The accumulator right after a frame delta is folded in: the snapped
/// delta is added, except that a stalled frame resets the backlog to a
/// single step.
pub open spec fn begun_acc(acc: int, elapsed: int) -> int {
    let e1 = snap_elapsed(elapsed);
    if e1 > DT_MAX {
        DT as int
    } else {
        acc + e1
    }
}

/// How many simulation steps one frame delta releases.
pub open spec fn pacer_ticks(acc: int, elapsed: int) -> int {
    begun_acc(acc, elapsed) / (DT as int)
}

/// What is left in the accumulator after those steps.
pub open spec fn pacer_rest(acc: int, elapsed: int) -> int {
    begun_acc(acc, elapsed) % (DT as int)
}

fn snap_to(e: u64, s: u64) -> (r: u64)
    ensures
        r as int == snap_one(e as int, s as int),
{
    let diff = if e > s {
        e - s
    } else {
        s - e
    };
    if diff < DT_FUDGE_AMOUNT {
        s
    } else {
        e
    }
}

/// Converts wall-clock deltas into fixed simulation steps. Between
/// frames the accumulator always holds less than one step.
pub struct FramePacer {
    pub acc: u64,
}

impl FramePacer {
    pub open spec fn wf(self) -> bool {
        self.acc < DT
    }

    pub fn new() -> (r: FramePacer)
        ensures
            r.acc == 0,
            r.wf(),
    {
        FramePacer { acc: 0 }
    }

    /// Folds one frame's wall-clock delta into the accumulator: snaps it
    /// to a nearby refresh period, and on a stall discards the backlog
    /// and queues exactly one step.
    pub fn begin_frame(&mut self, elapsed: u64)
        requires
            old(self).wf(),
        ensures
            final(self).acc as int == begun_acc(old(self).acc as int, elapsed as int),
            final(self).acc < DT + DT_MAX,
    {
        let mut e = snap_to(elapsed, 48000);
        e = snap_to(e, 24000);
        e = snap_to(e, 12000);
        e = snap_to(e, 6000);
        e = snap_to(e, 5000);
        // Death spiral prevention
        if e > DT_MAX {
            self.acc = 0;
            e = DT;
        }
        self.acc = self.acc + e;
    }

    /// Consumes one simulation step if a full one is buffered; the event
    /// loop calls this until it returns false, simulating once per call.
    pub fn consume_tick(&mut self) -> (ticked: bool)
        ensures
            ticked == (old(self).acc >= DT),
            ticked ==> final(self).acc == old(self).acc - DT,
            !ticked ==> *final(self) == *old(self) && final(self).wf(),
    {
        if self.acc >= DT {
            self.acc = self.acc - DT;
            true
        } else {
            false
        }
    }

    /// One whole frame: folds the delta in and consumes every full step,
    /// returning how many simulation steps to run.
    pub fn advance(&mut self, elapsed: u64) -> (ticks: usize)
        requires
            old(self).wf(),
        ensures
            final(self).wf(),
            ticks as int == pacer_ticks(old(self).acc as int, elapsed as int),
            final(self).acc as int == pacer_rest(old(self).acc as int, elapsed as int),
    {
        self.begin_frame(elapsed);
        let ghost acc0 = self.acc as int;
        let mut ticks: usize = 0;
        while self.acc >= DT
            invariant
                self.acc as int + (ticks as int) * (DT as int) == acc0,
                acc0 < DT + DT_MAX,
            decreases self.acc,
        {
            self.acc = self.acc - DT;
            ticks = ticks + 1;
        }
        proof {
            vstd::arithmetic::div_mod::lemma_fundamental_div_mod_converse(
                acc0,
                DT as int,
                ticks as int,
                self.acc as int,
            );
        }
        ticks
    }
}

/// LAW: the pacer never runs more than five steps a frame and never
/// leaves a full step buffered; and started from an empty accumulator,
/// with a delta that no snap window captures, it runs exactly
/// delta / DT steps -- never more than the elapsed time covers.
pub proof fn lemma_pacer_never_overruns(acc: int, elapsed: int)
    requires
        0 <= acc < DT,
        0 <= elapsed,
    ensures
        0 <= pacer_ticks(acc, elapsed) <= 5,
        0 <= pacer_rest(acc, elapsed) < DT,
        acc == 0 && snap_elapsed(elapsed) == elapsed ==> pacer_ticks(acc, elapsed) <= elapsed / (
        DT as int),
{
    let b = begun_acc(acc, elapsed);
    assert(0 <= b < 6 * DT);
    assert(0 <= b / (DT as int) <= 5);
    if acc == 0 && snap_elapsed(elapsed) == elapsed {
        if elapsed > DT_MAX {
            assert(pacer_ticks(acc, elapsed) == 1);
            assert(elapsed / (DT as int) >= 5);
        } else {
            assert(pacer_ticks(acc, elapsed) == elapsed / (DT as int));
        }
    }
}

} // verus!
