//! The decisions of the dataflow pipeline.
//!
//! The reader thread, the channel, the gadget file and the clock live
//! outside the library; the loops around them feed plain numbers in and act
//! on the decisions that come back.  Two writer strategies exist: the
//! continuous writer coalesces a backlog down to the newest state, and the
//! interval writer fires once per period, as long as the wake lies within a
//! configured fraction of the period.

use vstd::prelude::*;

use crate::universal_gamepad::UniversalGamepad;

verus! {

/// Backlog size above which the continuous writer drains the whole channel.
pub const COALESCE_DRAIN_THRESHOLD: usize = 5;

/// Deviation scale: this many parts is the whole interval.
pub const DEVIATION_SCALE: u64 = 1000000;

/// What the continuous writer does with the report it just received, given
/// how many more are already queued behind it.
#[derive(Clone, Copy, Debug, PartialEq, Eq, Structural)]
pub enum CoalesceAction {
    /// No backlog worth mentioning: encode and write this report.
    Process,
    /// A small backlog: drop this report, newer ones are already waiting.
    SkipOne,
    /// The backlog passed the threshold: drain everything and keep only the
    /// newest report.
    DrainToLatest,
}

/// The coalescing rule of the continuous writer.
pub open spec fn spec_coalesce_action(backlog: usize, threshold: usize) -> CoalesceAction {
    if backlog > threshold {
        CoalesceAction::DrainToLatest
    } else if backlog > 1 {
        CoalesceAction::SkipOne
    } else {
        CoalesceAction::Process
    }
}

/// Decides what the continuous writer does next, from the number of reports
/// still queued behind the one it holds.
pub fn coalesce_action(backlog: usize, threshold: usize) -> (a: CoalesceAction)
    ensures
        a == spec_coalesce_action(backlog, threshold),
{
    if backlog > threshold {
        CoalesceAction::DrainToLatest
    } else if backlog > 1 {
        CoalesceAction::SkipOne
    } else {
        CoalesceAction::Process
    }
}

/// Keeps only the newest of a drained backlog: the last report received is
/// the last element, and older reports are discarded, never delivered late.
pub fn coalesce_latest(pending: &Vec<UniversalGamepad>) -> (r: Option<UniversalGamepad>)
    ensures
        match r {
            Some(u) => pending@.len() > 0 && u == pending@[pending@.len() - 1],
            None => pending@.len() == 0,
        },
{
    if pending.len() == 0 {
        None
    } else {
        Some(pending[pending.len() - 1])
    }
}

/// The wake at `elapsed_ns` lies within the allowed fraction of the period:
/// its distance past the last period boundary, as parts of
/// [`DEVIATION_SCALE`], is at most `max_deviation_ppm`.
pub open spec fn spec_on_time(elapsed_ns: u64, interval_ns: u64, max_deviation_ppm: u32) -> bool {
    (elapsed_ns as int % interval_ns as int) * (DEVIATION_SCALE as int) <= (max_deviation_ppm as int)
        * (interval_ns as int)
}

/// What the interval writer learns from one wake of its loop.
#[derive(Clone, Copy, Debug, PartialEq, Eq, Structural)]
pub struct IntervalDecision {
    /// Whether to write to the gadget on this wake.
    pub write_now: bool,
    /// Which period the wake fell into; hand it back as `prev_cycle_index`
    /// after a write.
    pub cycle_index: u64,
}

/// Decides whether the interval writer fires on this wake.
///
/// A write is due when the wake fell into a later period than the one
/// written last, and the wake is on time.  A deviation of
/// [`DEVIATION_SCALE`] or more accepts every wake, so only the period count
/// gates the write; a deviation of zero accepts only a wake that hits a
/// period boundary exactly.
pub fn interval_should_write(
    elapsed_ns: u64,
    interval_ns: u64,
    prev_cycle_index: u64,
    max_deviation_ppm: u32,
) -> (d: IntervalDecision)
    requires
        interval_ns > 0,
    ensures
        d.cycle_index == elapsed_ns as int / interval_ns as int,
        d.write_now == (d.cycle_index > prev_cycle_index && spec_on_time(
            elapsed_ns,
            interval_ns,
            max_deviation_ppm,
        )),
        max_deviation_ppm >= DEVIATION_SCALE ==> d.write_now == (d.cycle_index
            > prev_cycle_index),
        max_deviation_ppm == 0 ==> d.write_now == (d.cycle_index > prev_cycle_index
            && elapsed_ns as int % interval_ns as int == 0),
{
    let cycle_index: u64 = elapsed_ns / interval_ns;
    let rem: u64 = elapsed_ns % interval_ns;
    proof {
        assert((max_deviation_ppm as u128) * (interval_ns as u128) <= 0xffffffffu128
            * 0xffffffffffffffffu128) by (nonlinear_arith)
            requires
                max_deviation_ppm <= 0xffffffffu32,
                interval_ns <= 0xffffffffffffffffu64,
        ;
    }
    let lhs: u128 = (rem as u128) * 1000000;
    let rhs: u128 = (max_deviation_ppm as u128) * (interval_ns as u128);
    let on_time: bool = lhs <= rhs;
    proof {
        if max_deviation_ppm >= DEVIATION_SCALE {
            assert((rem as int) * (DEVIATION_SCALE as int) <= (max_deviation_ppm as int)
                * (interval_ns as int)) by (nonlinear_arith)
                requires
                    0 <= rem < interval_ns,
                    max_deviation_ppm >= DEVIATION_SCALE,
                    DEVIATION_SCALE == 1000000,
            ;
        }
        if max_deviation_ppm == 0 {
            assert(((rem as int) * (DEVIATION_SCALE as int) <= 0) == (rem == 0))
                by (nonlinear_arith)
                requires
                    0 <= rem,
                    DEVIATION_SCALE == 1000000,
            ;
            assert((max_deviation_ppm as int) * (interval_ns as int) == 0) by (nonlinear_arith)
                requires
                    max_deviation_ppm == 0,
            ;
        }
    }
    IntervalDecision { write_now: cycle_index > prev_cycle_index && on_time, cycle_index }
}

/// Two on-time writes are never close together: a write in a later period
/// follows the previous one by at least the period less the allowed
/// deviation.  Distances are in parts of [`DEVIATION_SCALE`].
pub proof fn lemma_interval_write_gap(
    e1: u64,
    e2: u64,
    interval_ns: u64,
    max_deviation_ppm: u32,
)
    requires
        interval_ns > 0,
        max_deviation_ppm <= DEVIATION_SCALE,
        spec_on_time(e1, interval_ns, max_deviation_ppm),
        e2 as int / interval_ns as int > e1 as int / interval_ns as int,
    ensures
        e1 < e2,
        (e2 - e1) * (DEVIATION_SCALE as int) >= (DEVIATION_SCALE - max_deviation_ppm)
            * (interval_ns as int),
{
    let p = interval_ns as int;
    let c1 = e1 as int / p;
    let r1 = e1 as int % p;
    let c2 = e2 as int / p;
    let r2 = e2 as int % p;
    vstd::arithmetic::div_mod::lemma_fundamental_div_mod(e1 as int, p);
    vstd::arithmetic::div_mod::lemma_fundamental_div_mod(e2 as int, p);
    vstd::arithmetic::div_mod::lemma_mod_bound(e1 as int, p);
    vstd::arithmetic::div_mod::lemma_mod_bound(e2 as int, p);
    assert(e2 as int - e1 as int >= p - r1) by (nonlinear_arith)
        requires
            e1 as int == p * c1 + r1,
            e2 as int == p * c2 + r2,
            c2 > c1,
            0 <= r1 < p,
            0 <= r2 < p,
            p > 0,
    ;
    assert((e2 as int - e1 as int) * (DEVIATION_SCALE as int) >= (DEVIATION_SCALE
        - max_deviation_ppm) * p) by (nonlinear_arith)
        requires
            e2 as int - e1 as int >= p - r1,
            r1 * (DEVIATION_SCALE as int) <= (max_deviation_ppm as int) * p,
            0 <= max_deviation_ppm <= DEVIATION_SCALE,
            0 <= r1 < p,
            p > 0,
            DEVIATION_SCALE == 1000000,
    ;
}

} // verus!
