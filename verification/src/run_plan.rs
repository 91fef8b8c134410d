//! The timeline of a cycle's sector runs: each sector waters from its start
//! for its duration, and the next one starts after the pump has rested.
use vstd::prelude::*;
use crate::rega::CtrlTime;

verus! {

/// Plans one sector run from `sec_start` for `duration_ns` nanoseconds:
/// gives its start, its end, and when the next sector may start, once the
/// pump has rested `pump_ns` nanoseconds.
pub fn plan_run(sec_start: CtrlTime, duration_ns: u64, pump_ns: u64) -> (r: (CtrlTime, CtrlTime, CtrlTime))
    requires
        sec_start.0 + duration_ns + pump_ns <= u64::MAX,
    ensures
        r.0 == sec_start,
        r.1.0 == sec_start.0 + duration_ns,
        r.2.0 == r.1.0 + pump_ns,
{
    let end = CtrlTime(sec_start.0 + duration_ns);
    (sec_start, end, CtrlTime(end.0 + pump_ns))
}

/// The start of run `i` when the runs of `durs` follow one another from
/// `start`, with a rest of `pump` between two runs.
pub open spec fn start_of(start: int, durs: Seq<u64>, pump: int, i: nat) -> int
    decreases i,
{
    if i == 0 {
        start
    } else {
        start_of(start, durs, pump, (i - 1) as nat) + durs[i - 1] + pump
    }
}

proof fn lemma_start_of_grows(start: int, durs: Seq<u64>, pump: int, i: nat, j: nat)
    requires
        i <= j <= durs.len(),
        pump >= 0,
    ensures
        start_of(start, durs, pump, i) <= start_of(start, durs, pump, j),
    decreases j,
{
    if i < j {
        lemma_start_of_grows(start, durs, pump, i, (j - 1) as nat);
    }
}

/// The runs of a cycle's sectors, each `(start, end)`, for the durations
/// `durs` (nanoseconds), from `start`, with the pump resting `pump_ns`
/// between two runs.
pub fn schedule_runs(start: CtrlTime, durs: &Vec<u64>, pump_ns: u64) -> (r: Vec<(CtrlTime, CtrlTime)>)
    requires
        start_of(start.0 as int, durs@, pump_ns as int, durs@.len()) <= u64::MAX,
    ensures
        r@.len() == durs@.len(),
        forall|i: int| 0 <= i < durs@.len() ==> {
            &&& (#[trigger] r@[i]).0.0 == start_of(start.0 as int, durs@, pump_ns as int, i as nat)
            &&& r@[i].1.0 == r@[i].0.0 + durs@[i]
        },
{
    let mut r: Vec<(CtrlTime, CtrlTime)> = Vec::new();
    let mut cur = start;
    let mut i: usize = 0;
    while i < durs.len()
        invariant
            i <= durs@.len(),
            r@.len() == i,
            cur.0 == start_of(start.0 as int, durs@, pump_ns as int, i as nat),
            start_of(start.0 as int, durs@, pump_ns as int, durs@.len()) <= u64::MAX,
            forall|k: int| 0 <= k < i ==> {
                &&& (#[trigger] r@[k]).0.0 == start_of(start.0 as int, durs@, pump_ns as int, k as nat)
                &&& r@[k].1.0 == r@[k].0.0 + durs@[k]
            },
        decreases durs.len() - i,
    {
        proof {
            lemma_start_of_grows(start.0 as int, durs@, pump_ns as int, (i + 1) as nat, durs@.len());
        }
        let (s, e, next) = plan_run(cur, durs[i], pump_ns);
        r.push((s, e));
        cur = next;
        i = i + 1;
    }
    r
}

/// Two runs of a schedule never overlap: a later run starts only after an
/// earlier one has ended and the pump has rested.
pub proof fn law_runs_do_not_overlap(start: int, durs: Seq<u64>, pump: int, i: nat, j: nat)
    requires
        i < j <= durs.len(),
        pump >= 0,
    ensures
        start_of(start, durs, pump, i) + durs[i as int] + pump <= start_of(start, durs, pump, j),
{
    lemma_start_of_grows(start, durs, pump, i + 1, j);
}

} // verus!
