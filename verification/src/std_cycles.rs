//! Bookkeeping of the standard cycles: the list of their ids and positions,
//! rebuilt when the machine starts and kept up as clients add and delete
//! cycles.
use vstd::prelude::*;
use crate::cycle::{Cycle, CycleList, MAX_INTERNALS, cycle_list_as_slice, cycle_list_items, cycle_list_len,
    cycle_list_remove, cycle_list_set};
use crate::engine::WtrCtl;
use crate::ptr_list::{CycleTuple, MAX_STANDARD_CYCLES, PtrList, ptr_list_as_slice, ptr_list_clear, ptr_list_items,
    ptr_list_len, ptr_list_push, ptr_list_swap_remove};
use crate::rega::{CtrlTime, CycleId};
use crate::cache::strings_view;
use crate::client::NextEvent;
use crate::cycle::{invalid_schedules, refresh_cycle_starts, refreshed};
use crate::errors::CycleError;

verus! {

/// The standard cycles list that matches the cycle list `s`: the cycles
/// after the internal ones, with their positions.
pub open spec fn std_ptrs_of(s: Seq<Cycle>) -> Seq<CycleTuple> {
    if s.len() <= MAX_INTERNALS {
        Seq::empty()
    } else {
        Seq::new((s.len() - MAX_INTERNALS) as nat, |k: int| (s[k + MAX_INTERNALS].run.cycle_id, (k + MAX_INTERNALS) as u8))
    }
}

/// The position in the standard cycles list of the first entry with `id`.
pub open spec fn std_pos_of(l: Seq<CycleTuple>, id: CycleId) -> int {
    choose|i: int| 0 <= i < l.len() && l[i].0 == id && forall|j: int| 0 <= j < i ==> l[j].0 != id
}

pub open spec fn has_std_id(l: Seq<CycleTuple>, id: CycleId) -> bool {
    exists|i: int| 0 <= i < l.len() && l[i].0 == id
}

pub open spec fn has_std_ptr(l: Seq<CycleTuple>, ptr: u8) -> bool {
    exists|i: int| 0 <= i < l.len() && #[trigger] l[i].1 == ptr
}

/// The position in the standard cycles list of the first entry for the cycle
/// at position `ptr`.
pub open spec fn first_ptr_pos(l: Seq<CycleTuple>, ptr: u8) -> int {
    choose|i: int| 0 <= i < l.len() && l[i].1 == ptr && forall|j: int| 0 <= j < i ==> l[j].1 != ptr
}

/// `l` without its entry at `i`, the last entry taking its place.
pub open spec fn swap_removed(l: Seq<CycleTuple>, i: int) -> Seq<CycleTuple> {
    if i + 1 == l.len() { l.drop_last() } else { l.drop_last().update(i, l.last()) }
}

proof fn lemma_first_ptr_pos(l: Seq<CycleTuple>, ptr: u8, i: int)
    requires
        0 <= i < l.len(),
        l[i].1 == ptr,
        forall|j: int| 0 <= j < i ==> l[j].1 != ptr,
    ensures
        first_ptr_pos(l, ptr) == i,
{
    let q = first_ptr_pos(l, ptr);
    assert(0 <= q < l.len() && l[q].1 == ptr && forall|j: int| 0 <= j < q ==> l[j].1 != ptr);
    if q < i {
        assert(l[q].1 != ptr);
    } else if q > i {
        assert(l[i].1 != ptr);
    }
}

/// The first position of an entry with `id`, found by scanning.
pub(crate) fn find_std_pos(l: &[CycleTuple], id: CycleId) -> (p: usize)
    requires
        has_std_id(l@, id),
    ensures
        p < l@.len(),
        l@[p as int].0 == id,
        forall|j: int| 0 <= j < p ==> l@[j].0 != id,
        p == std_pos_of(l@, id),
{
    let mut i: usize = 0;
    while i < l.len()
        invariant
            i <= l@.len(),
            has_std_id(l@, id),
            forall|j: int| 0 <= j < i ==> l@[j].0 != id,
        decreases l.len() - i,
    {
        if l[i].0 == id {
            proof {
                let q = std_pos_of(l@, id);
                assert(0 <= q < l@.len() && l@[q].0 == id && forall|j: int| 0 <= j < q ==> l@[j].0 != id);
                if q < i {
                } else if q > i {
                }
            }
            return i;
        }
        i = i + 1;
    }
    proof {
        let k = choose|k: int| 0 <= k < l@.len() && l@[k].0 == id;
        assert(false);
    }
    0
}

/// Takes out of `l` its first entry for the cycle at position `ptr`, the
/// last entry taking its place.
pub(crate) fn swap_out_ptr(l: &mut PtrList, ptr: u8)
    requires
        has_std_ptr(ptr_list_items(*old(l)), ptr),
    ensures
        ptr_list_items(*final(l)) == swap_removed(ptr_list_items(*old(l)), first_ptr_pos(ptr_list_items(*old(l)), ptr)),
{
    let s = ptr_list_as_slice(l);
    let ghost gl = s@;
    let mut i: usize = 0;
    while i < s.len() && s[i].1 != ptr
        invariant
            gl == s@,
            gl == ptr_list_items(*l),
            i <= gl.len(),
            has_std_ptr(gl, ptr),
            forall|j: int| 0 <= j < i ==> gl[j].1 != ptr,
        decreases s.len() - i,
    {
        i = i + 1;
    }
    proof {
        if i == gl.len() {
            let k = choose|k: int| 0 <= k < gl.len() && #[trigger] gl[k].1 == ptr;
            assert(gl[k].1 != ptr);
        }
        lemma_first_ptr_pos(gl, ptr, i as int);
    }
    let _ = ptr_list_swap_remove(l, i);
}

impl WtrCtl {
    /// Indexes the cycles loaded at start-up: every cycle learns its
    /// position, and the standard cycles list lists the cycles after the
    /// internal ones.
    pub fn index_cycles(&mut self, cycles: &mut CycleList)
        ensures
            ptr_list_items(final(self).std_ptrs) == std_ptrs_of(cycle_list_items(*old(cycles))),
            final(self).internal.have_standard == (cycle_list_items(*old(cycles)).len() > MAX_INTERNALS),
            final(self).internal.wizard == old(self).internal.wizard,
            final(self).internal.direct == old(self).internal.direct,
            cycle_list_items(*final(cycles)).len() == cycle_list_items(*old(cycles)).len(),
            forall|i: int| 0 <= i < cycle_list_items(*old(cycles)).len() ==> #[trigger] cycle_list_items(*final(cycles))[i]
                == (Cycle { ptr: Some(i as u8), ..cycle_list_items(*old(cycles))[i] }),
            final(self).state == old(self).state,
            final(self).cmd_queue@ == old(self).cmd_queue@,
            final(self).active_ptrs == old(self).active_ptrs,
    {
        let ghost old_items = cycle_list_items(*cycles);
        ptr_list_clear(&mut self.std_ptrs);
        let max = cycle_list_len(cycles);
        self.internal.have_standard = max > MAX_INTERNALS;
        let mut i: usize = MAX_INTERNALS;
        while i < max
            invariant
                max == old_items.len(),
                old_items == cycle_list_items(*cycles),
                MAX_INTERNALS <= i <= max || (max < MAX_INTERNALS && i == MAX_INTERNALS),
                max <= 5,
                ptr_list_items(self.std_ptrs) == Seq::new((i - MAX_INTERNALS) as nat,
                    |k: int| (old_items[k + MAX_INTERNALS].run.cycle_id, (k + MAX_INTERNALS) as u8)),
                self.state == old(self).state,
                self.cmd_queue@ == old(self).cmd_queue@,
                self.active_ptrs == old(self).active_ptrs,
                self.internal.wizard == old(self).internal.wizard,
                self.internal.direct == old(self).internal.direct,
                self.internal.have_standard == (max > MAX_INTERNALS),
            decreases max - i,
        {
            let s = cycle_list_as_slice(cycles);
            let id = s[i].run.cycle_id;
            ptr_list_push(&mut self.std_ptrs, (id, i as u8));
            assert(ptr_list_items(self.std_ptrs) =~= Seq::new((i + 1 - MAX_INTERNALS) as nat,
                |k: int| (old_items[k + MAX_INTERNALS].run.cycle_id, (k + MAX_INTERNALS) as u8)));
            i = i + 1;
        }
        assert(ptr_list_items(self.std_ptrs) =~= std_ptrs_of(old_items));
        let mut p: usize = 0;
        while p < max
            invariant
                max == old_items.len(),
                max <= 5,
                p <= max,
                cycle_list_items(*cycles).len() == max,
                forall|i: int| 0 <= i < p ==> #[trigger] cycle_list_items(*cycles)[i]
                    == (Cycle { ptr: Some(i as u8), ..old_items[i] }),
                forall|i: int| p <= i < max ==> #[trigger] cycle_list_items(*cycles)[i] == old_items[i],
            decreases max - p,
        {
            let s = cycle_list_as_slice(cycles);
            let mut c = s[p].clone();
            c.ptr = Some(p as u8);
            cycle_list_set(cycles, p, c);
            p = p + 1;
        }
    }

    /// The standard cycle with `id`.
    pub fn get_std_cycle_by_id<'a>(&self, cycles: &'a CycleList, id: CycleId) -> (c: &'a Cycle)
        requires
            has_std_id(ptr_list_items(self.std_ptrs), id),
            ptr_list_items(self.std_ptrs)[std_pos_of(ptr_list_items(self.std_ptrs), id)].1
                < cycle_list_items(*cycles).len(),
        ensures
            *c == cycle_list_items(*cycles)[ptr_list_items(self.std_ptrs)[std_pos_of(ptr_list_items(self.std_ptrs),
                id)].1 as int],
    {
        let l = ptr_list_as_slice(&self.std_ptrs);
        let pos = find_std_pos(l, id);
        let s = cycle_list_as_slice(cycles);
        &s[l[pos].1 as usize]
    }

    /// Takes the standard cycle with `id` out of the cycle list, at the
    /// position that the cycle records; gives that position.
    pub fn del_cycle_from_id(&self, cycles: &mut CycleList, id: CycleId) -> (p: u8)
        requires
            has_std_id(ptr_list_items(self.std_ptrs), id),
            ptr_list_items(self.std_ptrs)[std_pos_of(ptr_list_items(self.std_ptrs), id)].1
                < cycle_list_items(*old(cycles)).len(),
            ({
                let c = cycle_list_items(*old(cycles))[ptr_list_items(self.std_ptrs)[std_pos_of(
                    ptr_list_items(self.std_ptrs), id)].1 as int];
                c.ptr matches Some(q) && q < cycle_list_items(*old(cycles)).len()
            }),
        ensures
            Some(p) == cycle_list_items(*old(cycles))[ptr_list_items(self.std_ptrs)[std_pos_of(
                ptr_list_items(self.std_ptrs), id)].1 as int].ptr,
            cycle_list_items(*final(cycles)) == cycle_list_items(*old(cycles)).remove(p as int),
    {
        let ptr = self.get_std_cycle_by_id(cycles, id).ptr.unwrap();
        let _ = cycle_list_remove(cycles, ptr as usize);
        ptr
    }

    /// Forgets the standard cycle at position `ptr` once it was deleted: its
    /// entry is replaced by the last one.
    pub fn forget_std_ptr(&mut self, ptr: u8)
        requires
            has_std_ptr(ptr_list_items(old(self).std_ptrs), ptr),
        ensures
            ptr_list_items(final(self).std_ptrs) == swap_removed(ptr_list_items(old(self).std_ptrs),
                first_ptr_pos(ptr_list_items(old(self).std_ptrs), ptr)),
            final(self).state == old(self).state,
            final(self).cmd_queue@ == old(self).cmd_queue@,
            final(self).active_ptrs == old(self).active_ptrs,
            final(self).mode == old(self).mode,
            final(self).changed == old(self).changed,
            final(self).in_alert == old(self).in_alert,
            final(self).internal == old(self).internal,
            final(self).wtr_secs@ == old(self).wtr_secs@,
            final(self).suspend_timeout == old(self).suspend_timeout,
            final(self).errors@ == old(self).errors@,
    {
        swap_out_ptr(&mut self.std_ptrs, ptr);
    }

    /// Registers the standard cycle `id`, added at position `ptr`.
    pub fn add_std_ptr(&mut self, id: CycleId, ptr: u8)
        requires
            ptr_list_items(old(self).std_ptrs).len() < MAX_STANDARD_CYCLES,
        ensures
            ptr_list_items(final(self).std_ptrs) == ptr_list_items(old(self).std_ptrs).push((id, ptr)),
            final(self).state == old(self).state,
            final(self).cmd_queue@ == old(self).cmd_queue@,
            final(self).active_ptrs == old(self).active_ptrs,
            final(self).mode == old(self).mode,
            final(self).changed == old(self).changed,
            final(self).in_alert == old(self).in_alert,
            final(self).internal == old(self).internal,
            final(self).wtr_secs@ == old(self).wtr_secs@,
            final(self).suspend_timeout == old(self).suspend_timeout,
            final(self).errors@ == old(self).errors@,
    {
        ptr_list_push(&mut self.std_ptrs, (id, ptr));
    }
}

proof fn lemma_first_id_exists(l: Seq<CycleTuple>, id: CycleId, w: int)
    requires
        0 <= w < l.len(),
        l[w].0 == id,
    ensures
        exists|i: int| 0 <= i < l.len() && l[i].0 == id && forall|j: int| 0 <= j < i ==> l[j].0 != id,
    decreases w,
{
    if exists|j: int| 0 <= j < w && l[j].0 == id {
        let j = choose|j: int| 0 <= j < w && l[j].0 == id;
        lemma_first_id_exists(l, id, j);
    } else {
        assert(forall|j: int| 0 <= j < w ==> l[j].0 != id);
    }
}

/// Once the cycles are indexed, looking a standard cycle up by its id finds
/// a cycle with that id, inside the list.
pub proof fn law_indexed_lookup_finds_the_cycle(s: Seq<Cycle>, id: CycleId)
    requires
        s.len() <= 256,
        has_std_id(std_ptrs_of(s), id),
    ensures
        std_ptrs_of(s)[std_pos_of(std_ptrs_of(s), id)].1 < s.len(),
        s[std_ptrs_of(s)[std_pos_of(std_ptrs_of(s), id)].1 as int].run.cycle_id == id,
{
    let l = std_ptrs_of(s);
    let w = choose|i: int| 0 <= i < l.len() && l[i].0 == id;
    lemma_first_id_exists(l, id, w);
    let k = std_pos_of(l, id);
    assert(0 <= k < l.len() && l[k].0 == id);
    assert(l[k] == (s[k + MAX_INTERNALS].run.cycle_id, (k + MAX_INTERNALS) as u8));
}

/// The positions, among the first `n` cycles, of those whose start passed by
/// `time` and moves to a next event.
pub open spec fn moved_starts(s: Seq<Cycle>, time: CtrlTime, nexts: Seq<NextEvent>, n: nat) -> Seq<usize>
    decreases n,
{
    if n == 0 {
        Seq::empty()
    } else {
        let prev = moved_starts(s, time, nexts, (n - 1) as nat);
        if time.0 > s[n - 1].schedule.start.0 && nexts[n - 1] is At {
            prev.push((n - 1) as usize)
        } else {
            prev
        }
    }
}

/// The messages of the cycles at positions `ps` whose schedule is not valid.
pub open spec fn schedule_errors(s: Seq<Cycle>, ps: Seq<usize>) -> Seq<Seq<char>> {
    ps.map_values(|p: usize| CycleError::CantUpdateCycleSchedule(s[p as int].name).spec_message())
}

proof fn lemma_invalid_in_range(s: Seq<Cycle>, time: CtrlTime, nexts: Seq<NextEvent>, n: nat)
    requires
        n <= s.len(),
        n <= 256,
    ensures
        forall|k: int| 0 <= k < invalid_schedules(s, time, nexts, n).len()
            ==> #[trigger] invalid_schedules(s, time, nexts, n)[k] < n,
    decreases n,
{
    if n > 0 {
        let m = (n - 1) as nat;
        lemma_invalid_in_range(s, time, nexts, m);
        let prev = invalid_schedules(s, time, nexts, m);
        assert((m as usize) as int == m);
        assert forall|k: int| 0 <= k < invalid_schedules(s, time, nexts, n).len()
            implies #[trigger] invalid_schedules(s, time, nexts, n)[k] < n by {
            if k < prev.len() {
                assert(invalid_schedules(s, time, nexts, n)[k] == prev[k]);
            }
        }
    }
}

impl WtrCtl {
    /// Brings the cycles up to date when a mode is established at `time`
    /// (`nexts[i]` is the next event of cycle `i`'s schedule after `time`):
    /// every cycle whose start passed moves to its next event; a cycle whose
    /// schedule is not valid keeps its start and its error is recorded, so
    /// that the step ends in the error state.  Gives the positions of the
    /// cycles that moved, which are to be saved.
    pub fn establish_cycles(&mut self, cycles: &mut CycleList, time: CtrlTime, nexts: &[NextEvent])
        -> (moved: Vec<usize>)
        requires
            nexts@.len() == cycle_list_items(*old(cycles)).len(),
        ensures
            cycle_list_items(*final(cycles)).len() == cycle_list_items(*old(cycles)).len(),
            forall|i: int| 0 <= i < cycle_list_items(*old(cycles)).len() ==> #[trigger] cycle_list_items(
                *final(cycles))[i] == refreshed(cycle_list_items(*old(cycles))[i], time, nexts@[i]),
            moved@ == moved_starts(cycle_list_items(*old(cycles)), time, nexts@, cycle_list_items(*old(cycles)).len()),
            strings_view(final(self).errors@) == strings_view(old(self).errors@) + schedule_errors(
                cycle_list_items(*old(cycles)), invalid_schedules(cycle_list_items(*old(cycles)), time, nexts@,
                cycle_list_items(*old(cycles)).len())),
            final(self).same_ctl_but_errors(old(self)),
    {
        let ghost old_items = cycle_list_items(*cycles);
        let s = cycle_list_as_slice(cycles);
        let mut moved: Vec<usize> = Vec::new();
        let mut i: usize = 0;
        while i < s.len()
            invariant
                s@ == old_items,
                nexts@.len() == s@.len(),
                i <= s@.len(),
                moved@ == moved_starts(old_items, time, nexts@, i as nat),
            decreases s.len() - i,
        {
            if time.0 > s[i].schedule.start.0 {
                match nexts[i] {
                    NextEvent::At(_) => moved.push(i),
                    _ => {},
                }
            }
            i = i + 1;
        }
        let invalid = refresh_cycle_starts(cycles, time, nexts);
        proof {
            lemma_invalid_in_range(old_items, time, nexts@, old_items.len());
        }
        let s2 = cycle_list_as_slice(cycles);
        let ghost e0 = strings_view(self.errors@);
        let mut k: usize = 0;
        while k < invalid.len()
            invariant
                k <= invalid@.len(),
                invalid@ == invalid_schedules(old_items, time, nexts@, old_items.len()),
                forall|j: int| 0 <= j < invalid@.len() ==> #[trigger] invalid@[j] < old_items.len(),
                s2@.len() == old_items.len(),
                forall|j: int| 0 <= j < old_items.len() ==> #[trigger] s2@[j] == refreshed(old_items[j], time, nexts@[j]),
                strings_view(self.errors@) == e0 + schedule_errors(old_items, invalid@.take(k as int)),
                e0 == strings_view(old(self).errors@),
                self.same_ctl_but_errors(old(self)),
            decreases invalid.len() - k,
        {
            let p = invalid[k];
            let name = s2[p].name.clone();
            assert(s2@[p as int].name == old_items[p as int].name);
            let e = CycleError::CantUpdateCycleSchedule(name);
            let msg = e.message();
            let ghost old_errs = self.errors@;
            self.errors.push(msg);
            proof {
                assert(msg@ == CycleError::CantUpdateCycleSchedule(old_items[p as int].name).spec_message());
                assert(invalid@.take(k + 1) =~= invalid@.take(k as int).push(p));
                assert(schedule_errors(old_items, invalid@.take(k + 1)) =~= schedule_errors(old_items,
                    invalid@.take(k as int)).push(msg@));
                assert(strings_view(self.errors@) =~= strings_view(old_errs).push(msg@));
                assert(strings_view(self.errors@) =~= e0 + schedule_errors(old_items, invalid@.take(k + 1)));
            }
            k = k + 1;
        }
        assert(invalid@.take(invalid@.len() as int) =~= invalid@);
        moved
    }
}

} // verus!
