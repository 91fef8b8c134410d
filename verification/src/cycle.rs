//! Watering cycles: their schedule data, their runs, and the in-memory list
//! of cycles, kept ordered by kind.
use vstd::prelude::*;
use arrayvec::ArrayVec;
use crate::client::NextEvent;
use crate::cycle_type::CycleType;
use crate::rega::{CtrlTime, CycleId, Mode, WateringStatus};

verus! {

/// The internal cycles: the wizard cycle and the direct cycle.
pub const MAX_INTERNALS: usize = 2;
/// Room for the internal cycles and the standard ones.
pub const MAX_CYCLES: usize = 5;
/// Nanoseconds in a day.
pub const NR_NANOS_IN_A_DAY: u64 = 86_400_000_000_000;

/// How a record was last changed by a client: inserted, updated or deleted.
#[derive(Debug, Clone, Copy, PartialEq, Eq, Structural)]
pub enum SyncOp {
    I,
    U,
    D,
}

/// When a cycle runs: its next start and its repetition rules, as stored.
#[derive(Debug, Clone, Copy, PartialEq, Eq, Structural)]
pub struct Schedule {
    pub start: CtrlTime,
    pub repeat_kind: u8,
    pub repeat_spec_wd: u8,
    pub repeat_every_qty: u16,
    pub repeat_every_unit: u8,
    pub stop_condition: u8,
    pub stop_retries: u16,
    pub stop_date_ts: CtrlTime,
    pub retries_count: u16,
}

/// A run of a cycle.
#[derive(Debug, Clone, Copy, PartialEq, Eq, Structural)]
pub struct CycleRun {
    pub start: CtrlTime,
    pub end: CtrlTime,
    pub cycle_id: CycleId,
    pub run_id: u32,
    pub status: WateringStatus,
    pub update_db: bool,
}

/// A watering cycle.
#[derive(Debug)]
pub struct Cycle {
    pub run: CycleRun,
    pub schedule: Schedule,
    pub name: String,
    pub last_change: CtrlTime,
    pub last_run: CtrlTime,
    pub op: SyncOp,
    pub sunrise_flg: u8,
    pub sunset_flg: u8,
    pub ptr: Option<u8>,
    pub cycle_type: CycleType,
}

impl Clone for Cycle {
    fn clone(&self) -> (c: Cycle)
        ensures
            c == *self,
    {
        Cycle {
            run: self.run,
            schedule: self.schedule,
            name: self.name.clone(),
            last_change: self.last_change,
            last_run: self.last_run,
            op: self.op,
            sunrise_flg: self.sunrise_flg,
            sunset_flg: self.sunset_flg,
            ptr: self.ptr,
            cycle_type: self.cycle_type,
        }
    }
}

impl Cycle {
    /// A new cycle waiting for its first run.
    pub fn new(schedule: Schedule, name: String, sunrise_flg: u8, time: CtrlTime, cycle_type: CycleType) -> (c: Cycle)
        ensures
            c.name == name,
            c.schedule == schedule,
            c.sunrise_flg == sunrise_flg,
            c.sunset_flg == 0,
            c.last_change == time,
            c.last_run == CtrlTime(0),
            c.cycle_type == cycle_type,
            c.run == (CycleRun {
                start: CtrlTime(0),
                end: CtrlTime(0),
                cycle_id: 0,
                run_id: 0,
                status: WateringStatus::Waiting,
                update_db: false,
            }),
            c.op == SyncOp::I,
            c.ptr is None,
    {
        Cycle {
            run: CycleRun {
                start: CtrlTime(0),
                end: CtrlTime(0),
                cycle_id: 0,
                run_id: 0,
                status: WateringStatus::Waiting,
                update_db: false,
            },
            schedule,
            name,
            last_change: time,
            last_run: CtrlTime(0),
            op: SyncOp::I,
            sunrise_flg,
            sunset_flg: 0,
            ptr: None,
            cycle_type,
        }
    }

    /// Takes what a client may change of a cycle; clients only define
    /// standard cycles.
    pub fn update_with_cli_info(&mut self, cli: &Cycle)
        ensures
            final(self).name == cli.name,
            final(self).op == cli.op,
            final(self).sunrise_flg == cli.sunrise_flg,
            final(self).sunset_flg == cli.sunset_flg,
            final(self).last_change == cli.last_change,
            final(self).run == (CycleRun { end: cli.run.end, ..old(self).run }),
            final(self).last_run == cli.last_run,
            final(self).schedule == cli.schedule,
            final(self).cycle_type == CycleType::Standard,
            final(self).ptr == old(self).ptr,
            *final(self) == with_cli_info(*old(self), *cli),
    {
        self.name = cli.name.clone();
        self.op = cli.op;
        self.sunrise_flg = cli.sunrise_flg;
        self.sunset_flg = cli.sunset_flg;
        self.last_change = cli.last_change;
        self.run.end = cli.run.end;
        self.last_run = cli.last_run;
        self.schedule = cli.schedule;
        self.cycle_type = CycleType::Standard;
    }

    /// The next start of the cycle after `after`, given the next event of its
    /// schedule (`next`) and that event moved to the sunrise of its day
    /// (`at_sunrise`): wizard cycles that follow the sunrise start then, or a
    /// day later when that sunrise is already past.
    pub fn resolve_next_event(&self, mode: Mode, after: CtrlTime, next: Option<CtrlTime>, at_sunrise: CtrlTime)
        -> (r: Option<CtrlTime>)
        requires
            at_sunrise.0 + NR_NANOS_IN_A_DAY <= u64::MAX,
        ensures
            r == (match next {
                Some(_) if self.sunrise_flg == 1 && mode == Mode::Wizard => if at_sunrise.0 < after.0 {
                    Some(CtrlTime((at_sunrise.0 + NR_NANOS_IN_A_DAY) as u64))
                } else {
                    Some(at_sunrise)
                },
                _ => next,
            }),
    {
        match next {
            Some(_) if self.sunrise_flg == 1 && mode.is_wizard() => {
                if at_sunrise.0 < after.0 {
                    Some(CtrlTime(at_sunrise.0 + NR_NANOS_IN_A_DAY))
                } else {
                    Some(at_sunrise)
                }
            },
            _ => next,
        }
    }
}

/// The first start of the wizard cycle: the next sunrise (`sunrise`, the
/// sunrise of the day of `time`), a day later when it already passed.
pub fn first_wizard_start(sunrise: CtrlTime, time: CtrlTime) -> (r: CtrlTime)
    requires
        sunrise.0 + NR_NANOS_IN_A_DAY <= u64::MAX,
    ensures
        r.0 == (if sunrise.0 < time.0 { sunrise.0 + NR_NANOS_IN_A_DAY } else { sunrise.0 as int }),
{
    if sunrise.0 < time.0 {
        CtrlTime(sunrise.0 + NR_NANOS_IN_A_DAY)
    } else {
        sunrise
    }
}

/// `c` after taking what a client may change from `cli`.
pub open spec fn with_cli_info(c: Cycle, cli: Cycle) -> Cycle {
    Cycle {
        run: CycleRun { end: cli.run.end, ..c.run },
        schedule: cli.schedule,
        name: cli.name,
        last_change: cli.last_change,
        last_run: cli.last_run,
        op: cli.op,
        sunrise_flg: cli.sunrise_flg,
        sunset_flg: cli.sunset_flg,
        ptr: c.ptr,
        cycle_type: CycleType::Standard,
    }
}

/// Closes the run of `cycle` with `new_status` at `time`.
pub fn upd_in_mem_cycle_on_end(cycle: &mut Cycle, new_status: WateringStatus, time: CtrlTime)
    ensures
        final(cycle).run == (CycleRun { end: time, status: new_status, ..old(cycle).run }),
        final(cycle).last_run == old(cycle).schedule.start,
        final(cycle).last_change == time,
        final(cycle).schedule == old(cycle).schedule,
        final(cycle).name == old(cycle).name,
        final(cycle).ptr == old(cycle).ptr,
        final(cycle).cycle_type == old(cycle).cycle_type,
{
    cycle.run.end = time;
    cycle.last_run = cycle.schedule.start;
    cycle.run.status = new_status;
    cycle.last_change = time;
}

/// Opens a new run of `cycle`, at `at` when given (which becomes its
/// scheduled start) or else at its scheduled start; gives that start.
pub fn begin_run(cycle: &mut Cycle, at: Option<CtrlTime>) -> (start: CtrlTime)
    requires
        old(cycle).run.run_id < u32::MAX,
    ensures
        start == (match at {
            Some(t) => t,
            None => old(cycle).schedule.start,
        }),
        final(cycle).schedule == (Schedule { start, ..old(cycle).schedule }),
        final(cycle).run == (CycleRun {
            run_id: (old(cycle).run.run_id + 1) as u32,
            start,
            status: WateringStatus::Running,
            end: CtrlTime(0),
            ..old(cycle).run
        }),
        final(cycle).last_change == start,
        final(cycle).last_run == old(cycle).last_run,
        final(cycle).name == old(cycle).name,
        final(cycle).ptr == old(cycle).ptr,
        final(cycle).cycle_type == old(cycle).cycle_type,
{
    let start = match at {
        Some(t) => {
            cycle.schedule.start = t;
            t
        },
        None => cycle.schedule.start,
    };
    cycle.run.run_id = cycle.run.run_id + 1;
    cycle.run.start = start;
    cycle.run.status = WateringStatus::Running;
    cycle.run.end = CtrlTime(0);
    cycle.last_change = start;
    start
}

/// `c` with its suspended run taken up again at `time`.
pub open spec fn resumed_cycle(c: Cycle, time: CtrlTime) -> Cycle {
    Cycle { run: CycleRun { status: WateringStatus::Running, end: CtrlTime(0), ..c.run }, last_change: time, ..c }
}

/// Takes up again the suspended run of `cycle` at `time`.
pub fn resume_run(cycle: &mut Cycle, time: CtrlTime)
    ensures
        *final(cycle) == resumed_cycle(*old(cycle), time),
{
    cycle.run.end = CtrlTime(0);
    cycle.last_change = time;
    cycle.run.status = WateringStatus::Running;
}

/// Closes the run of a stopped cycle with `status` at `time` and counts the
/// attempt among its schedule's retries; its next start is then set by
/// `schedule_next_run`.
pub fn end_stopped_run(cycle: &mut Cycle, status: WateringStatus, time: CtrlTime)
    requires
        old(cycle).schedule.retries_count < u16::MAX,
    ensures
        final(cycle).run == (CycleRun { end: time, status, ..old(cycle).run }),
        final(cycle).last_run == old(cycle).schedule.start,
        final(cycle).last_change == time,
        final(cycle).schedule == (Schedule {
            retries_count: (old(cycle).schedule.retries_count + 1) as u16,
            ..old(cycle).schedule
        }),
        final(cycle).name == old(cycle).name,
        final(cycle).ptr == old(cycle).ptr,
        final(cycle).cycle_type == old(cycle).cycle_type,
{
    upd_in_mem_cycle_on_end(cycle, status, time);
    cycle.schedule.retries_count = cycle.schedule.retries_count + 1;
}

/// Prepares the next run of a cycle whose run ended: it starts at `next`,
/// the next event of its schedule, when there is one, else at its current
/// start; the run counter moves on.
pub fn schedule_next_run(cycle: &mut Cycle, next: NextEvent)
    requires
        old(cycle).run.run_id < u32::MAX,
    ensures
        final(cycle).schedule == (Schedule {
            start: match next {
                NextEvent::At(t) => t,
                _ => old(cycle).schedule.start,
            },
            ..old(cycle).schedule
        }),
        final(cycle).run == (CycleRun {
            start: final(cycle).schedule.start,
            run_id: (old(cycle).run.run_id + 1) as u32,
            ..old(cycle).run
        }),
        final(cycle).last_run == old(cycle).last_run,
        final(cycle).last_change == old(cycle).last_change,
        final(cycle).name == old(cycle).name,
        final(cycle).ptr == old(cycle).ptr,
        final(cycle).cycle_type == old(cycle).cycle_type,
{
    match next {
        NextEvent::At(t) => {
            cycle.schedule.start = t;
        },
        _ => {},
    }
    cycle.run.start = cycle.schedule.start;
    cycle.run.run_id = cycle.run.run_id + 1;
}

// ---------------------------------------------------------------------------
// The cycle list.

/// The cycles in memory.
pub type CycleList = ArrayVec<Cycle, MAX_CYCLES>;

/// What a cycle list holds, in order.
pub uninterp spec fn cycle_list_items(l: CycleList) -> Seq<Cycle>;

/// `ArrayVec::new`: an empty list.
#[verifier::external_body]
pub(crate) fn cycle_list_new() -> (l: CycleList)
    ensures
        cycle_list_items(l) == Seq::<Cycle>::empty(),
{
    ArrayVec::new()
}

/// `ArrayVec::len`.
#[verifier::external_body]
pub(crate) fn cycle_list_len(l: &CycleList) -> (n: usize)
    ensures
        n == cycle_list_items(*l).len(),
        n <= MAX_CYCLES,
{
    l.len()
}

/// `ArrayVec::as_slice`: the cycles in order.
#[verifier::external_body]
pub(crate) fn cycle_list_as_slice(l: &CycleList) -> (s: &[Cycle])
    ensures
        s@ == cycle_list_items(*l),
        s@.len() <= MAX_CYCLES,
{
    l.as_slice()
}

/// `ArrayVec::insert`: puts `c` at `i`, moving the later cycles up; it panics
/// when the list is full or `i` is past its end, which is excluded.
#[verifier::external_body]
pub(crate) fn cycle_list_insert(l: &mut CycleList, i: usize, c: Cycle)
    requires
        cycle_list_items(*old(l)).len() < MAX_CYCLES,
        i <= cycle_list_items(*old(l)).len(),
    ensures
        cycle_list_items(*final(l)) == cycle_list_items(*old(l)).insert(i as int, c),
{
    l.insert(i, c)
}

/// `ArrayVec::push`: appends `c`; it panics when the list is full.
#[verifier::external_body]
pub(crate) fn cycle_list_push(l: &mut CycleList, c: Cycle)
    requires
        cycle_list_items(*old(l)).len() < MAX_CYCLES,
    ensures
        cycle_list_items(*final(l)) == cycle_list_items(*old(l)).push(c),
{
    l.push(c)
}

/// `ArrayVec::remove`: takes out the cycle at `i`, moving the later ones
/// down; it panics when `i` is out of bounds.
#[verifier::external_body]
pub(crate) fn cycle_list_remove(l: &mut CycleList, i: usize) -> (c: Cycle)
    requires
        i < cycle_list_items(*old(l)).len(),
    ensures
        c == cycle_list_items(*old(l))[i as int],
        cycle_list_items(*final(l)) == cycle_list_items(*old(l)).remove(i as int),
{
    l.remove(i)
}

/// Writes `c` at `i` (`l[i] = c`); `i` must be in bounds.
#[verifier::external_body]
pub(crate) fn cycle_list_set(l: &mut CycleList, i: usize, c: Cycle)
    requires
        i < cycle_list_items(*old(l)).len(),
    ensures
        cycle_list_items(*final(l)) == cycle_list_items(*old(l)).update(i as int, c),
{
    l[i] = c;
}

/// The number of cycles in the list.
pub fn cycle_count(l: &CycleList) -> (n: usize)
    ensures
        n == cycle_list_items(*l).len(),
        n <= MAX_CYCLES,
{
    cycle_list_len(l)
}

/// The cycle at position `i`.
pub fn cycle_at(l: &CycleList, i: usize) -> (c: &Cycle)
    requires
        i < cycle_list_items(*l).len(),
    ensures
        *c == cycle_list_items(*l)[i as int],
{
    &cycle_list_as_slice(l)[i]
}

/// Cycles ordered by kind.
pub open spec fn sorted_by_type(s: Seq<Cycle>) -> bool {
    forall|i: int, j: int| 0 <= i <= j < s.len() ==> #[trigger] s[i].cycle_type.spec_code() <= #[trigger] s[j].cycle_type.spec_code()
}

/// Whether the cycles are ordered by kind.
pub fn cycles_sorted_by_type(l: &CycleList) -> (r: bool)
    ensures
        r == sorted_by_type(cycle_list_items(*l)),
{
    let s = cycle_list_as_slice(l);
    let mut i: usize = 1;
    if s.len() == 0 {
        return true;
    }
    while i < s.len()
        invariant
            1 <= i <= s@.len(),
            s@ == cycle_list_items(*l),
            forall|a: int, b: int| 0 <= a <= b < i ==> #[trigger] s@[a].cycle_type.spec_code()
                <= #[trigger] s@[b].cycle_type.spec_code(),
        decreases s.len() - i,
    {
        if s[i].cycle_type.code() < s[i - 1].cycle_type.code() {
            return false;
        }
        assert forall|a: int, b: int| 0 <= a <= b < i + 1 implies #[trigger] s@[a].cycle_type.spec_code()
            <= #[trigger] s@[b].cycle_type.spec_code() by {
            if b == i && a < i {
                assert(s@[a].cycle_type.spec_code() <= s@[i - 1].cycle_type.spec_code());
            }
        }
        i = i + 1;
    }
    true
}

/// Whether no cycle of the list has the id `cycle_id`.
pub fn is_new_cycle(cycles: &CycleList, cycle_id: CycleId) -> (r: bool)
    ensures
        r == !(exists|i: int| 0 <= i < cycle_list_items(*cycles).len()
            && #[trigger] cycle_list_items(*cycles)[i].run.cycle_id == cycle_id),
{
    let s = cycle_list_as_slice(cycles);
    let mut i: usize = 0;
    while i < s.len()
        invariant
            s@ == cycle_list_items(*cycles),
            i <= s@.len(),
            forall|j: int| 0 <= j < i ==> s@[j].run.cycle_id != cycle_id,
        decreases s.len() - i,
    {
        if s[i].run.cycle_id == cycle_id {
            return false;
        }
        i = i + 1;
    }
    true
}

/// The binary search of the kind with code `key` among the cycles between
/// `lo` and `hi`: the position of a cycle of that kind, or where one would go.
pub open spec fn bsearch(s: Seq<Cycle>, key: u8, lo: int, hi: int) -> Result<usize, usize>
    decreases hi - lo,
{
    if 0 <= lo < hi {
        let mid = lo + (hi - lo) / 2;
        let c = s[mid].cycle_type.spec_code();
        if c == key {
            Ok(mid as usize)
        } else if c < key {
            bsearch(s, key, mid + 1, hi)
        } else {
            bsearch(s, key, lo, mid)
        }
    } else {
        Err(lo as usize)
    }
}

/// Where a cycle of kind `t` goes in `s` when no position is given.
pub open spec fn insert_position(s: Seq<Cycle>, t: CycleType) -> int {
    match bsearch(s, t.spec_code(), 0, s.len() as int) {
        Ok(i) => i as int,
        Err(i) => i as int,
    }
}

/// Binary search of the cycles of kind `t` in a list ordered by kind:
/// `Ok` with the position of such a cycle, or `Err` with the position where
/// one would be inserted keeping the order.
pub fn search_by_type(cycles: &CycleList, t: CycleType) -> (r: Result<usize, usize>)
    requires
        sorted_by_type(cycle_list_items(*cycles)),
    ensures
        r matches Ok(i) ==> i < cycle_list_items(*cycles).len() && cycle_list_items(*cycles)[i as int].cycle_type == t,
        r == bsearch(cycle_list_items(*cycles), t.spec_code(), 0, cycle_list_items(*cycles).len() as int),
        r matches Err(p) ==> p <= cycle_list_items(*cycles).len()
            && (forall|j: int| 0 <= j < p ==> cycle_list_items(*cycles)[j].cycle_type.spec_code() < t.spec_code())
            && (forall|j: int| p <= j < cycle_list_items(*cycles).len()
                ==> cycle_list_items(*cycles)[j].cycle_type.spec_code() > t.spec_code()),
{
    let s = cycle_list_as_slice(cycles);
    let key = t.code();
    let mut lo: usize = 0;
    let mut hi: usize = s.len();
    while lo < hi
        invariant
            s@ == cycle_list_items(*cycles),
            sorted_by_type(s@),
            key == t.spec_code(),
            lo <= hi <= s@.len(),
            bsearch(s@, key, lo as int, hi as int) == bsearch(s@, key, 0, s@.len() as int),
            forall|j: int| 0 <= j < lo ==> s@[j].cycle_type.spec_code() < key,
            forall|j: int| hi <= j < s@.len() ==> s@[j].cycle_type.spec_code() > key,
        decreases hi - lo,
    {
        let mid = lo + (hi - lo) / 2;
        let c = s[mid].cycle_type.code();
        if c == key {
            proof {
                crate::cycle_type::law_cycle_type_code_injective(s@[mid as int].cycle_type, t);
            }
            return Ok(mid);
        } else if c < key {
            assert forall|j: int| 0 <= j <= mid implies s@[j].cycle_type.spec_code() < key by {
                assert(s@[j].cycle_type.spec_code() <= s@[mid as int].cycle_type.spec_code());
            }
            lo = mid + 1;
        } else {
            assert forall|j: int| mid <= j < s@.len() implies s@[j].cycle_type.spec_code() > key by {
                assert(s@[mid as int].cycle_type.spec_code() <= s@[j].cycle_type.spec_code());
            }
            hi = mid;
        }
    }
    Err(lo)
}

/// Where `add_cycle` puts a cycle of kind `t`.
pub open spec fn fits_at(s: Seq<Cycle>, p: int, t: CycleType) -> bool {
    &&& 0 <= p <= s.len()
    &&& forall|j: int| 0 <= j < p ==> s[j].cycle_type.spec_code() <= t.spec_code()
    &&& forall|j: int| p <= j < s.len() ==> s[j].cycle_type.spec_code() >= t.spec_code()
}

/// Puts `cycle` in the list: at `new_pos` when given, otherwise where its
/// kind keeps the list ordered.  Gives the position.
pub fn add_cycle_in_list(cycles: &mut CycleList, cycle: Cycle, new_pos: Option<usize>) -> (p: u8)
    requires
        cycle_list_items(*old(cycles)).len() < MAX_CYCLES,
        new_pos matches Some(n) ==> n <= cycle_list_items(*old(cycles)).len(),
        new_pos is None ==> sorted_by_type(cycle_list_items(*old(cycles))),
    ensures
        new_pos matches Some(n) ==> p == n,
        new_pos is None ==> fits_at(cycle_list_items(*old(cycles)), p as int, cycle.cycle_type)
            && p == insert_position(cycle_list_items(*old(cycles)), cycle.cycle_type),
        cycle_list_items(*final(cycles)) == cycle_list_items(*old(cycles)).insert(p as int, cycle),
{
    let ptr = match new_pos {
        Some(p) => p,
        None => {
            let r = search_by_type(cycles, cycle.cycle_type);
            match r {
                Ok(i) => {
                    proof {
                        let s = cycle_list_items(*cycles);
                        assert forall|j: int| i <= j < s.len() implies s[j].cycle_type.spec_code()
                            >= cycle.cycle_type.spec_code() by {
                            assert(s[i as int].cycle_type.spec_code() <= s[j].cycle_type.spec_code());
                        }
                        assert forall|j: int| 0 <= j < i implies s[j].cycle_type.spec_code()
                            <= cycle.cycle_type.spec_code() by {
                            assert(s[j].cycle_type.spec_code() <= s[i as int].cycle_type.spec_code());
                        }
                    }
                    i
                },
                Err(i) => i,
            }
        },
    };
    cycle_list_insert(cycles, ptr, cycle);
    ptr as u8
}

proof fn lemma_bsearch_fits(s: Seq<Cycle>, key: u8, lo: int, hi: int)
    requires
        sorted_by_type(s),
        s.len() <= MAX_CYCLES,
        0 <= lo <= hi <= s.len(),
        forall|j: int| 0 <= j < lo ==> s[j].cycle_type.spec_code() < key,
        forall|j: int| hi <= j < s.len() ==> s[j].cycle_type.spec_code() > key,
    ensures
        ({
            let i = match bsearch(s, key, lo, hi) {
                Ok(i) => i as int,
                Err(i) => i as int,
            };
            &&& 0 <= i <= s.len()
            &&& forall|j: int| 0 <= j < i ==> s[j].cycle_type.spec_code() <= key
            &&& forall|j: int| i <= j < s.len() ==> s[j].cycle_type.spec_code() >= key
        }),
    decreases hi - lo,
{
    if lo < hi {
        let mid = lo + (hi - lo) / 2;
        let c = s[mid].cycle_type.spec_code();
        if c == key {
            assert forall|j: int| 0 <= j < mid implies s[j].cycle_type.spec_code() <= key by {
                assert(s[j].cycle_type.spec_code() <= s[mid].cycle_type.spec_code());
            }
            assert forall|j: int| mid <= j < s.len() implies s[j].cycle_type.spec_code() >= key by {
                assert(s[mid].cycle_type.spec_code() <= s[j].cycle_type.spec_code());
            }
            assert((mid as usize) as int == mid);
        } else if c < key {
            assert forall|j: int| 0 <= j < mid + 1 implies s[j].cycle_type.spec_code() < key by {
                assert(s[j].cycle_type.spec_code() <= s[mid].cycle_type.spec_code());
            }
            lemma_bsearch_fits(s, key, mid + 1, hi);
        } else {
            assert forall|j: int| mid <= j < s.len() implies s[j].cycle_type.spec_code() > key by {
                assert(s[mid].cycle_type.spec_code() <= s[j].cycle_type.spec_code());
            }
            lemma_bsearch_fits(s, key, lo, mid);
        }
    } else {
        assert((lo as usize) as int == lo);
    }
}

/// In a list ordered by kind, a cycle of kind `t` goes where its kind
/// fits: after the cycles of lower kinds and before those of higher kinds.
pub proof fn law_insert_position_fits(s: Seq<Cycle>, t: CycleType)
    requires
        sorted_by_type(s),
        s.len() <= MAX_CYCLES,
    ensures
        fits_at(s, insert_position(s, t), t),
{
    lemma_bsearch_fits(s, t.spec_code(), 0, s.len() as int);
}

/// Inserting a cycle where its kind fits keeps the list ordered by kind.
pub proof fn law_insert_keeps_order(s: Seq<Cycle>, p: int, c: Cycle)
    requires
        sorted_by_type(s),
        fits_at(s, p, c.cycle_type),
    ensures
        sorted_by_type(s.insert(p, c)),
{
    let t = s.insert(p, c);
    assert forall|i: int, j: int| 0 <= i <= j < t.len() implies #[trigger] t[i].cycle_type.spec_code()
        <= #[trigger] t[j].cycle_type.spec_code() by {
        if i < p && j < p {
            assert(t[i] == s[i] && t[j] == s[j]);
        } else if i < p && j == p {
        } else if i < p {
            assert(t[j] == s[j - 1]);
        } else if i == p && j > p {
            assert(t[j] == s[j - 1]);
        } else if i > p {
            assert(t[i] == s[i - 1] && t[j] == s[j - 1]);
        }
    }
}

/// The cycles changed after `last_sync`, in order.
pub fn cycles_clone_filtered(cycles: &CycleList, last_sync: CtrlTime) -> (r: CycleList)
    ensures
        cycle_list_items(r) == cycle_list_items(*cycles).filter(|c: Cycle| c.last_change.0 > last_sync.0),
{
    let s = cycle_list_as_slice(cycles);
    let mut r = cycle_list_new();
    let ghost pred = |c: Cycle| c.last_change.0 > last_sync.0;
    let mut i: usize = 0;
    while i < s.len()
        invariant
            s@ == cycle_list_items(*cycles),
            s@.len() <= MAX_CYCLES,
            i <= s@.len(),
            pred == (|c: Cycle| c.last_change.0 > last_sync.0),
            cycle_list_items(r) == s@.take(i as int).filter(pred),
        decreases s.len() - i,
    {
        proof {
            s@.take(i as int).lemma_filter_len(pred);
        }
        if s[i].last_change.0 > last_sync.0 {
            let c = s[i].clone();
            cycle_list_push(&mut r, c);
        }
        proof {
            reveal(Seq::filter);
            assert(s@.take(i + 1).drop_last() =~= s@.take(i as int));
            assert(s@.take(i + 1).last() == s@[i as int]);
        }
        i = i + 1;
    }
    assert(s@.take(s@.len() as int) =~= s@);
    r
}

/// A cycle whose start passed by `time` moves to its next event `next`;
/// without one it stays as it was.
pub open spec fn refreshed(c: Cycle, time: CtrlTime, next: NextEvent) -> Cycle {
    if time.0 > c.schedule.start.0 {
        match next {
            NextEvent::At(t) => Cycle { schedule: Schedule { start: t, ..c.schedule }, ..c },
            _ => c,
        }
    } else {
        c
    }
}

/// The positions, among the first `n` cycles, of those whose start passed by
/// `time` and whose schedule is not valid.
pub open spec fn invalid_schedules(s: Seq<Cycle>, time: CtrlTime, nexts: Seq<NextEvent>, n: nat) -> Seq<usize>
    decreases n,
{
    if n == 0 {
        Seq::empty()
    } else {
        let prev = invalid_schedules(s, time, nexts, (n - 1) as nat);
        if time.0 > s[n - 1].schedule.start.0 && nexts[n - 1] == NextEvent::Invalid {
            prev.push((n - 1) as usize)
        } else {
            prev
        }
    }
}

/// Brings the starts of the cycles up to date at `time`, when a mode is
/// established: `nexts[i]` is the next event of the schedule of cycle `i`
/// after `time`.  Gives the positions of the cycles whose schedule is not
/// valid, in order.
pub fn refresh_cycle_starts(cycles: &mut CycleList, time: CtrlTime, nexts: &[NextEvent]) -> (invalid: Vec<usize>)
    requires
        nexts@.len() == cycle_list_items(*old(cycles)).len(),
    ensures
        cycle_list_items(*final(cycles)).len() == cycle_list_items(*old(cycles)).len(),
        forall|i: int| 0 <= i < cycle_list_items(*old(cycles)).len() ==> #[trigger] cycle_list_items(*final(cycles))[i]
            == refreshed(cycle_list_items(*old(cycles))[i], time, nexts@[i]),
        invalid@ == invalid_schedules(cycle_list_items(*old(cycles)), time, nexts@,
            cycle_list_items(*old(cycles)).len()),
{
    let ghost old_items = cycle_list_items(*cycles);
    let n = cycle_list_len(cycles);
    let mut invalid: Vec<usize> = Vec::new();
    let mut i: usize = 0;
    while i < n
        invariant
            n == old_items.len(),
            n <= MAX_CYCLES,
            nexts@.len() == n,
            i <= n,
            cycle_list_items(*cycles).len() == n,
            forall|j: int| 0 <= j < i ==> #[trigger] cycle_list_items(*cycles)[j] == refreshed(old_items[j], time, nexts@[j]),
            forall|j: int| i <= j < n ==> #[trigger] cycle_list_items(*cycles)[j] == old_items[j],
            invalid@ == invalid_schedules(old_items, time, nexts@, i as nat),
        decreases n - i,
    {
        let s = cycle_list_as_slice(cycles);
        let start = s[i].schedule.start;
        if time.0 > start.0 {
            match nexts[i] {
                NextEvent::At(t) => {
                    let mut c = s[i].clone();
                    c.schedule.start = t;
                    cycle_list_set(cycles, i, c);
                },
                NextEvent::Invalid => {
                    invalid.push(i);
                },
                NextEvent::NoEvent => {},
            }
        }
        i = i + 1;
    }
    invalid
}

/// When a mode is established at `time`, a cycle whose start has passed
/// moves its start to the next event of its schedule, and nothing else of it
/// changes; a cycle whose start has not passed, or whose schedule has no
/// next event, stays as it was.
pub proof fn law_refresh_moves_passed_starts(c: Cycle, time: CtrlTime, next: NextEvent)
    ensures
        time.0 > c.schedule.start.0 ==> (next matches NextEvent::At(t) ==> {
            &&& refreshed(c, time, next).schedule.start == t
            &&& refreshed(c, time, next).schedule.repeat_kind == c.schedule.repeat_kind
            &&& refreshed(c, time, next).schedule.retries_count == c.schedule.retries_count
            &&& refreshed(c, time, next).run == c.run
            &&& refreshed(c, time, next).name == c.name
            &&& refreshed(c, time, next).ptr == c.ptr
            &&& refreshed(c, time, next).cycle_type == c.cycle_type
            &&& refreshed(c, time, next).last_change == c.last_change
        }),
        time.0 <= c.schedule.start.0 ==> refreshed(c, time, next) == c,
        !(next is At) ==> refreshed(c, time, next) == c,
{
}

} // verus!
