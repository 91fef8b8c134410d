//! Which cycle clients are told runs next.
use vstd::prelude::*;
use crate::cycle_type::CycleType;
use crate::rega::{Mode, WateringStatus};

verus! {

/// What the choice reads of a cycle, as clients see it: the status of its
/// run, the code of its kind, and its next start (Unix seconds).
pub type CycleTiming = (WateringStatus, u8, u64);

/// Whether a cycle that is not running counts in `mode`: standard cycles in
/// standard mode, the wizard cycle in wizard mode.
pub open spec fn counts_in_mode(c: CycleTiming, mode: Mode) -> bool {
    (c.1 == CycleType::Standard.spec_code() && mode == Mode::Standard)
        || (c.1 == CycleType::Wizard.spec_code() && mode == Mode::Wizard)
}

/// The choice after looking at the first `n` cycles: the best start so far,
/// its position, and whether a running cycle ended the search.
pub open spec fn scan(s: Seq<CycleTiming>, mode: Mode, n: nat) -> (u64, int, bool)
    decreases n,
{
    if n == 0 {
        (u64::MAX, -1, false)
    } else {
        let (t, i, stop) = scan(s, mode, (n - 1) as nat);
        let c = s[n - 1];
        if stop {
            (t, i, stop)
        } else if c.0 != WateringStatus::Running {
            if counts_in_mode(c, mode) && c.2 < t { (c.2, n - 1, false) } else { (t, i, false) }
        } else {
            (c.2, n - 1, true)
        }
    }
}

/// The next start clients are told and the position of that cycle (-1 when
/// none).  With no cycle to run, the time is `u64::MAX` in manual mode
/// ("no cycle to execute") and 0 in the other modes.
pub open spec fn first_cycle(s: Seq<CycleTiming>, mode: Mode) -> (u64, int) {
    let (t, i, _) = scan(s, mode, s.len());
    (if t == u64::MAX && mode != Mode::Manual { 0 } else { t }, i)
}

/// The start of the running cycle, if one runs (only one runs at a time);
/// otherwise the earliest start among the cycles that count in `mode`.
pub fn get_first_cycle_time(cycles: &[CycleTiming], mode: Mode) -> (r: (u64, i8))
    requires
        cycles@.len() <= 127,
    ensures
        r.0 == first_cycle(cycles@, mode).0,
        r.1 as int == first_cycle(cycles@, mode).1,
{
    let mut first_cycle_time: u64 = u64::MAX;
    let mut first_cycle_pos: i8 = -1;
    let mut pos: usize = 0;
    while pos < cycles.len()
        invariant_except_break
            scan(cycles@, mode, pos as nat) == (first_cycle_time, first_cycle_pos as int, false),
        invariant
            pos <= cycles@.len() <= 127,
            -1 <= first_cycle_pos <= pos,
        ensures
            scan(cycles@, mode, cycles@.len()) == (first_cycle_time, first_cycle_pos as int,
                scan(cycles@, mode, cycles@.len()).2),
        decreases cycles.len() - pos,
    {
        let c = cycles[pos];
        if c.0 != WateringStatus::Running {
            if c.1 == CycleType::Standard.code() && mode.is_standard() && c.2 < first_cycle_time {
                first_cycle_time = c.2;
                first_cycle_pos = pos as i8;
            }
            if c.1 == CycleType::Wizard.code() && mode.is_wizard() && c.2 < first_cycle_time {
                first_cycle_time = c.2;
                first_cycle_pos = pos as i8;
            }
        } else {
            first_cycle_time = c.2;
            first_cycle_pos = pos as i8;
            proof {
                lemma_scan_stops(cycles@, mode, (pos + 1) as nat, cycles@.len());
            }
            break;
        }
        pos = pos + 1;
    }
    if first_cycle_time == u64::MAX && !mode.is_manual() {
        first_cycle_time = 0;
    }
    (first_cycle_time, first_cycle_pos)
}

/// Once a running cycle ended the search, later cycles change nothing.
proof fn lemma_scan_stops(s: Seq<CycleTiming>, mode: Mode, n: nat, m: nat)
    requires
        n <= m <= s.len(),
        scan(s, mode, n).2,
    ensures
        scan(s, mode, m) == scan(s, mode, n),
    decreases m - n,
{
    if m > n {
        lemma_scan_stops(s, mode, n, (m - 1) as nat);
    }
}

/// When no cycle runs, the cycle chosen counts in the mode and no cycle that
/// counts starts earlier; when one runs, the first running cycle is chosen.
pub proof fn law_first_cycle_is_earliest(s: Seq<CycleTiming>, mode: Mode)
    ensures
        (forall|j: int| 0 <= j < s.len() ==> s[j].0 != WateringStatus::Running) ==> {
            let (t, i, _) = scan(s, mode, s.len());
            &&& i != -1 ==> 0 <= i < s.len() && counts_in_mode(s[i], mode) && s[i].2 == t
            &&& forall|j: int| 0 <= j < s.len() && counts_in_mode(s[j], mode) ==> t <= s[j].2
        },
        (exists|j: int| 0 <= j < s.len() && s[j].0 == WateringStatus::Running) ==> {
            let (t, i, stop) = scan(s, mode, s.len());
            &&& stop
            &&& 0 <= i < s.len() && s[i].0 == WateringStatus::Running && t == s[i].2
            &&& forall|j: int| 0 <= j < i ==> s[j].0 != WateringStatus::Running
        },
{
    lemma_scan_props(s, mode, s.len());
}

proof fn lemma_scan_props(s: Seq<CycleTiming>, mode: Mode, n: nat)
    requires
        n <= s.len(),
    ensures
        ({
            let (t, i, stop) = scan(s, mode, n);
            &&& -1 <= i < n
            &&& !stop ==> forall|j: int| 0 <= j < n ==> s[j].0 != WateringStatus::Running
            &&& !stop ==> (i != -1 ==> counts_in_mode(s[i], mode) && s[i].2 == t)
            &&& !stop ==> forall|j: int| 0 <= j < n && counts_in_mode(s[j], mode) ==> t <= s[j].2
            &&& stop ==> 0 <= i < n && s[i].0 == WateringStatus::Running && t == s[i].2
                && forall|j: int| 0 <= j < i ==> s[j].0 != WateringStatus::Running
        }),
    decreases n,
{
    if n > 0 {
        lemma_scan_props(s, mode, (n - 1) as nat);
    }
}

} // verus!
