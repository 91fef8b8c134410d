//! Applying the cycles a client sent, in manual mode: new cycles are added,
//! deleted ones taken out, changed ones updated, from the last sent to the
//! first; what cannot be applied is reported to the clients.
use vstd::prelude::*;
use crate::client::{CycleSyncAction, ErrorOutbox, NextEvent, cycle_sync_action, duplicated_cycle_message,
    duplicated_cycle_warning, plan_cycle_sync};
use crate::cycle::{Cycle, CycleList, CycleRun, MAX_CYCLES, Schedule, SyncOp, add_cycle_in_list, cycle_list_as_slice,
    cycle_list_items, cycle_list_len, cycle_list_new, cycle_list_push, cycle_list_remove, cycle_list_set,
    cycles_sorted_by_type, fits_at, insert_position, is_new_cycle, sorted_by_type, with_cli_info};
use crate::cache::strings_view;
use crate::engine::WtrCtl;
use crate::errors::CycleError;
use crate::ptr_list::{CycleTuple, MAX_STANDARD_CYCLES, PtrList, ptr_list_as_slice, ptr_list_items, ptr_list_len,
    ptr_list_new, ptr_list_push};
use crate::rega::{CtrlTime, CycleId, Mode};
use crate::std_cycles::{find_std_pos, first_ptr_pos, has_std_id, has_std_ptr, std_pos_of, swap_out_ptr,
    swap_removed};

verus! {

/// The data a client's cycles change: the cycles, the standard cycles list,
/// the messages for the clients, and whether a cycle changed.
pub type SyncState = (Seq<Cycle>, Seq<CycleTuple>, Seq<Seq<char>>, bool);

/// Whether no cycle of `s` has the id `id`.
pub open spec fn is_new_in(s: Seq<Cycle>, id: CycleId) -> bool {
    !(exists|i: int| 0 <= i < s.len() && #[trigger] s[i].run.cycle_id == id)
}

/// The position in the cycle list that the standard cycles list gives for
/// the cycle `id`.
pub open spec fn std_cycle_pos(ps: Seq<CycleTuple>, id: CycleId) -> int {
    ps[std_pos_of(ps, id)].1 as int
}

/// A new cycle from a client, stored under `id`, to run next at `t`, with no
/// run yet.
pub open spec fn added_cycle(c: Cycle, t: CtrlTime, id: CycleId) -> Cycle {
    Cycle { schedule: Schedule { start: t, ..c.schedule }, run: CycleRun { run_id: 0, cycle_id: id, ..c.run }, ..c }
}

/// Whether the client's cycle `c` can be applied to the cycles `s` and the
/// standard cycles list `ps`: a new cycle needs room in both lists, which
/// must be ordered by kind; a deleted or updated cycle must be a known
/// standard cycle that records its position.
pub open spec fn step_ok(s: Seq<Cycle>, ps: Seq<CycleTuple>, c: Cycle, next: NextEvent, time: CtrlTime) -> bool {
    let id = c.run.cycle_id;
    match cycle_sync_action(c.op, is_new_in(s, id), next, time) {
        CycleSyncAction::Add(_) => s.len() < MAX_CYCLES && ps.len() < MAX_STANDARD_CYCLES && sorted_by_type(s),
        CycleSyncAction::Delete => {
            &&& has_std_id(ps, id)
            &&& 0 <= std_cycle_pos(ps, id) < s.len()
            &&& s[std_cycle_pos(ps, id)].ptr matches Some(r) && r < s.len() && has_std_ptr(ps, r)
        },
        CycleSyncAction::Update => {
            &&& has_std_id(ps, id)
            &&& 0 <= std_cycle_pos(ps, id) < s.len()
            &&& s[std_cycle_pos(ps, id)].ptr matches Some(r) && (next is At ==> r < s.len())
        },
        _ => true,
    }
}

/// What applying the client's cycle `c`, whose schedule has the next event
/// `next` after `time`, does to `st`; a cycle that is added is stored under
/// `new_id`, the id the database gave it.
pub open spec fn sync_step(st: SyncState, c: Cycle, next: NextEvent, time: CtrlTime, new_id: CycleId) -> SyncState {
    let id = c.run.cycle_id;
    match cycle_sync_action(c.op, is_new_in(st.0, id), next, time) {
        CycleSyncAction::Add(t) => {
            let nc = added_cycle(c, t, new_id);
            let p = insert_position(st.0, nc.cycle_type);
            (st.0.insert(p, nc), st.1.push((new_id, p as u8)), st.2, true)
        },
        CycleSyncAction::Duplicated => (st.0, st.1, st.2.push(duplicated_cycle_warning()), st.3),
        CycleSyncAction::InvalidSchedule => (st.0, st.1, st.2.push(
            CycleError::CantUpdateCycleSchedule(c.name).spec_message()), st.3),
        CycleSyncAction::Ignore => st,
        CycleSyncAction::Delete => {
            let r = st.0[std_cycle_pos(st.1, id)].ptr.unwrap();
            (st.0.remove(r as int), swap_removed(st.1, first_ptr_pos(st.1, r)), st.2, true)
        },
        CycleSyncAction::Update => {
            let q = std_cycle_pos(st.1, id);
            let u = with_cli_info(st.0[q], c);
            match next {
                NextEvent::At(t) => (st.0.update(q, Cycle { schedule: Schedule { start: t, ..u.schedule }, ..u }),
                    st.1, st.2, true),
                NextEvent::NoEvent => (st.0.update(q, u), st.1, st.2, true),
                NextEvent::Invalid => (st.0.update(q, u), st.1, st.2.push(
                    CycleError::CantUpdateCycleSchedule(u.name).spec_message()), st.3),
            }
        },
    }
}

/// `st` after applying the last `n` of the client's cycles `cs`, from the
/// last to the first; `nexts[i]` is the next event of `cs[i]`'s schedule and
/// `ids[i]` the id `cs[i]` is stored under if it is added.
pub open spec fn sync_fold(st: SyncState, cs: Seq<Cycle>, nexts: Seq<NextEvent>, ids: Seq<CycleId>, time: CtrlTime,
    n: nat) -> SyncState
    decreases n,
{
    if n == 0 || n > cs.len() {
        st
    } else {
        sync_step(sync_fold(st, cs, nexts, ids, time, (n - 1) as nat), cs[cs.len() - n], nexts[cs.len() - n],
            time, ids[cs.len() - n])
    }
}

/// The state a sync starts from.
pub open spec fn sync_start(s: Seq<Cycle>, ps: Seq<CycleTuple>, msgs: Seq<Seq<char>>) -> SyncState {
    (s, ps, msgs, false)
}

/// Whether each of the last `n` client cycles can be applied in turn,
/// starting from the cycles `s` and the standard cycles list `ps`.
pub open spec fn sync_defined(s: Seq<Cycle>, ps: Seq<CycleTuple>, cs: Seq<Cycle>, nexts: Seq<NextEvent>,
    ids: Seq<CycleId>, time: CtrlTime, n: nat) -> bool
    decreases n,
{
    if n == 0 || n > cs.len() {
        true
    } else {
        let st = sync_fold(sync_start(s, ps, Seq::empty()), cs, nexts, ids, time, (n - 1) as nat);
        sync_defined(s, ps, cs, nexts, ids, time, (n - 1) as nat) && step_ok(st.0, st.1, cs[cs.len() - n],
            nexts[cs.len() - n], time)
    }
}

proof fn lemma_fold_shape(a: SyncState, b: SyncState, cs: Seq<Cycle>, nexts: Seq<NextEvent>, ids: Seq<CycleId>,
    time: CtrlTime, n: nat)
    requires
        a.0 == b.0,
        a.1 == b.1,
    ensures
        sync_fold(a, cs, nexts, ids, time, n).0 == sync_fold(b, cs, nexts, ids, time, n).0,
        sync_fold(a, cs, nexts, ids, time, n).1 == sync_fold(b, cs, nexts, ids, time, n).1,
    decreases n,
{
    if n > 0 && n <= cs.len() {
        lemma_fold_shape(a, b, cs, nexts, ids, time, (n - 1) as nat);
    }
}

proof fn lemma_defined_prefix(s: Seq<Cycle>, ps: Seq<CycleTuple>, cs: Seq<Cycle>, nexts: Seq<NextEvent>,
    ids: Seq<CycleId>, time: CtrlTime, m: nat, n: nat)
    requires
        m <= n <= cs.len(),
        sync_defined(s, ps, cs, nexts, ids, time, n),
    ensures
        sync_defined(s, ps, cs, nexts, ids, time, m),
    decreases n,
{
    if m < n {
        lemma_defined_prefix(s, ps, cs, nexts, ids, time, m, (n - 1) as nat);
    }
}

proof fn lemma_step_changed(st: SyncState, c: Cycle, next: NextEvent, time: CtrlTime, id: CycleId)
    ensures
        sync_step(st, c, next, time, id).0 == sync_step((st.0, st.1, st.2, false), c, next, time, id).0,
        sync_step(st, c, next, time, id).1 == sync_step((st.0, st.1, st.2, false), c, next, time, id).1,
        sync_step(st, c, next, time, id).2 == sync_step((st.0, st.1, st.2, false), c, next, time, id).2,
        sync_step(st, c, next, time, id).3 == (st.3 || sync_step((st.0, st.1, st.2, false), c, next, time, id).3),
{
}

/// A cycle a client sends back changed replaces what it may change of the
/// stored standard cycle with that id: its schedule becomes the client's,
/// starting at the schedule's next event when there is one; its name is the
/// client's; its id, run and position stay; no other cycle changes.
pub proof fn law_client_update_takes_the_schedule(st: SyncState, c: Cycle, next: NextEvent, time: CtrlTime,
    new_id: CycleId)
    requires
        c.op == SyncOp::U,
        step_ok(st.0, st.1, c, next, time),
    ensures
        ({
            let q = std_cycle_pos(st.1, c.run.cycle_id);
            let s1 = sync_step(st, c, next, time, new_id).0;
            &&& s1.len() == st.0.len()
            &&& s1[q].schedule == (Schedule {
                start: match next {
                    NextEvent::At(t) => t,
                    _ => c.schedule.start,
                },
                ..c.schedule
            })
            &&& s1[q].name == c.name
            &&& s1[q].run.cycle_id == st.0[q].run.cycle_id
            &&& s1[q].run.run_id == st.0[q].run.run_id
            &&& s1[q].ptr == st.0[q].ptr
            &&& forall|j: int| 0 <= j < st.0.len() && j != q ==> s1[j] == st.0[j]
        }),
{
}

/// A cycle a client sends as inserted, whose id no stored cycle has and
/// whose next run is after `time`, is added where its kind fits, under the
/// id the database gave it, to run next then with no run yet; it is
/// registered under that id at that position.
pub proof fn law_client_insert_adds(st: SyncState, c: Cycle, next: NextEvent, time: CtrlTime, new_id: CycleId)
    requires
        step_ok(st.0, st.1, c, next, time),
        st.0.len() <= MAX_CYCLES,
        c.op == SyncOp::I,
        !(exists|i: int| 0 <= i < st.0.len() && #[trigger] st.0[i].run.cycle_id == c.run.cycle_id),
        next is At,
        next->At_0.0 > time.0,
    ensures
        exists|p: int| {
            &&& fits_at(st.0, p, c.cycle_type)
            &&& sync_step(st, c, next, time, new_id).0 == st.0.insert(p, Cycle {
                schedule: Schedule { start: next->At_0, ..c.schedule },
                run: CycleRun { run_id: 0, cycle_id: new_id, ..c.run },
                ..c
            })
            &&& sync_step(st, c, next, time, new_id).1 == st.1.push((new_id, p as u8))
        },
        sync_step(st, c, next, time, new_id).2 == st.2,
        sync_step(st, c, next, time, new_id).3,
{
    crate::cycle::law_insert_position_fits(st.0, c.cycle_type);
    let p = insert_position(st.0, c.cycle_type);
    assert(fits_at(st.0, p, c.cycle_type));
}

/// A cycle a client sends as inserted that cannot be added changes no
/// cycle: with an id already stored a warning is added; without a run after
/// `time` nothing happens; with a schedule that is not valid the error naming
/// the cycle is added.
pub proof fn law_client_insert_not_added(st: SyncState, c: Cycle, next: NextEvent, time: CtrlTime, new_id: CycleId)
    requires
        c.op == SyncOp::I,
    ensures
        sync_step(st, c, next, time, new_id).0 == st.0 || (!(exists|i: int| 0 <= i < st.0.len()
            && #[trigger] st.0[i].run.cycle_id == c.run.cycle_id) && next is At && next->At_0.0 > time.0),
        (exists|i: int| 0 <= i < st.0.len() && #[trigger] st.0[i].run.cycle_id == c.run.cycle_id) ==> {
            &&& sync_step(st, c, next, time, new_id).1 == st.1
            &&& sync_step(st, c, next, time, new_id).2.len() == st.2.len() + 1
            &&& sync_step(st, c, next, time, new_id).3 == st.3
        },
        !(exists|i: int| 0 <= i < st.0.len() && #[trigger] st.0[i].run.cycle_id == c.run.cycle_id) ==> {
            &&& (next is NoEvent || (next is At && next->At_0.0 <= time.0)) ==> sync_step(st, c, next, time, new_id)
                == st
            &&& next is Invalid ==> sync_step(st, c, next, time, new_id) == (st.0, st.1, st.2.push(
                "Error updating cycle schedule: "@ + c.name@), st.3)
        },
{
}

proof fn lemma_first_ptr_exists(l: Seq<CycleTuple>, ptr: u8, w: int)
    requires
        0 <= w < l.len(),
        l[w].1 == ptr,
    ensures
        exists|i: int| 0 <= i < l.len() && l[i].1 == ptr && forall|j: int| 0 <= j < i ==> l[j].1 != ptr,
    decreases w,
{
    if exists|j: int| 0 <= j < w && l[j].1 == ptr {
        let j = choose|j: int| 0 <= j < w && l[j].1 == ptr;
        lemma_first_ptr_exists(l, ptr, j);
    } else {
        assert(forall|j: int| 0 <= j < w ==> l[j].1 != ptr);
    }
}

/// A cycle a client deletes is taken out of the list, at the position the
/// stored cycle records, and one entry, for that position, leaves the
/// standard cycles list.
pub proof fn law_client_delete_removes(st: SyncState, c: Cycle, next: NextEvent, time: CtrlTime, new_id: CycleId)
    requires
        c.op == SyncOp::D,
        step_ok(st.0, st.1, c, next, time),
    ensures
        ({
            let r = st.0[std_cycle_pos(st.1, c.run.cycle_id)].ptr.unwrap();
            &&& sync_step(st, c, next, time, new_id).0 == st.0.remove(r as int)
            &&& sync_step(st, c, next, time, new_id).1.len() + 1 == st.1.len()
            &&& exists|k: int| 0 <= k < st.1.len() && st.1[k].1 == r && sync_step(st, c, next, time, new_id).1
                == (if k + 1 == st.1.len() { st.1.drop_last() } else { st.1.drop_last().update(k, st.1.last()) })
            &&& sync_step(st, c, next, time, new_id).2 == st.2
            &&& sync_step(st, c, next, time, new_id).3
        }),
{
    let r = st.0[std_cycle_pos(st.1, c.run.cycle_id)].ptr.unwrap();
    let w = choose|i: int| 0 <= i < st.1.len() && #[trigger] st.1[i].1 == r;
    lemma_first_ptr_exists(st.1, r, w);
    let k = first_ptr_pos(st.1, r);
    assert(0 <= k < st.1.len() && st.1[k].1 == r);
}

/// Whether an entry of `l` has the id `id`.
fn has_id(l: &[CycleTuple], id: CycleId) -> (r: bool)
    ensures
        r == has_std_id(l@, id),
{
    let mut i: usize = 0;
    while i < l.len()
        invariant
            i <= l@.len(),
            forall|j: int| 0 <= j < i ==> l@[j].0 != id,
        decreases l.len() - i,
    {
        if l[i].0 == id {
            return true;
        }
        i = i + 1;
    }
    false
}

/// Whether an entry of `l` names the position `ptr`.
fn has_ptr(l: &[CycleTuple], ptr: u8) -> (r: bool)
    ensures
        r == has_std_ptr(l@, ptr),
{
    let mut i: usize = 0;
    while i < l.len()
        invariant
            i <= l@.len(),
            forall|j: int| 0 <= j < i ==> l@[j].1 != ptr,
        decreases l.len() - i,
    {
        if l[i].1 == ptr {
            return true;
        }
        i = i + 1;
    }
    false
}

/// See `step_ok`.
fn step_ok_exec(cycles: &CycleList, ptrs: &PtrList, c: &Cycle, next: NextEvent, time: CtrlTime) -> (r: bool)
    ensures
        r == step_ok(cycle_list_items(*cycles), ptr_list_items(*ptrs), *c, next, time),
{
    let id = c.run.cycle_id;
    let is_new = is_new_cycle(cycles, id);
    let action = plan_cycle_sync(c.op, is_new, next, time);
    match action {
        CycleSyncAction::Add(_) => {
            cycle_list_len(cycles) < MAX_CYCLES && ptr_list_len(ptrs) < MAX_STANDARD_CYCLES
                && cycles_sorted_by_type(cycles)
        },
        CycleSyncAction::Delete | CycleSyncAction::Update => {
            let l = ptr_list_as_slice(ptrs);
            if !has_id(l, id) {
                return false;
            }
            let pos = find_std_pos(l, id);
            let q = l[pos].1 as usize;
            let s = cycle_list_as_slice(cycles);
            if q >= s.len() {
                return false;
            }
            match s[q].ptr {
                Some(r) => {
                    if action == CycleSyncAction::Delete {
                        (r as usize) < s.len() && has_ptr(l, r)
                    } else {
                        match next {
                            NextEvent::At(_) => (r as usize) < s.len(),
                            _ => true,
                        }
                    }
                },
                None => false,
            }
        },
        _ => true,
    }
}

/// Applies the client's cycle `c` to the cycles, the standard cycles list
/// and the messages for the clients; tells whether a cycle changed.
fn apply_one(ptrs: &mut PtrList, cycles: &mut CycleList, msgs: &mut Vec<String>, c: Cycle, next: NextEvent,
    time: CtrlTime, new_id: CycleId) -> (changed: bool)
    requires
        step_ok(cycle_list_items(*old(cycles)), ptr_list_items(*old(ptrs)), c, next, time),
    ensures
        (cycle_list_items(*final(cycles)), ptr_list_items(*final(ptrs)), strings_view(final(msgs)@), changed)
            == sync_step((cycle_list_items(*old(cycles)), ptr_list_items(*old(ptrs)), strings_view(old(msgs)@),
            false), c, next, time, new_id),
{
    let ghost m0 = strings_view(msgs@);
    let id = c.run.cycle_id;
    let is_new = is_new_cycle(cycles, id);
    let action = plan_cycle_sync(c.op, is_new, next, time);
    match action {
        CycleSyncAction::Add(t) => {
            let mut nc = c;
            nc.schedule.start = t;
            nc.run.run_id = 0;
            nc.run.cycle_id = new_id;
            assert(nc == added_cycle(c, t, new_id));
            let p = add_cycle_in_list(cycles, nc, None);
            ptr_list_push(ptrs, (new_id, p));
            true
        },
        CycleSyncAction::Duplicated => {
            let m = duplicated_cycle_message();
            msgs.push(m);
            assert(strings_view(msgs@) =~= m0.push(duplicated_cycle_warning()));
            false
        },
        CycleSyncAction::InvalidSchedule => {
            let m = CycleError::CantUpdateCycleSchedule(c.name).message();
            msgs.push(m);
            assert(strings_view(msgs@) =~= m0.push(CycleError::CantUpdateCycleSchedule(c.name).spec_message()));
            false
        },
        CycleSyncAction::Ignore => false,
        CycleSyncAction::Delete => {
            let l = ptr_list_as_slice(ptrs);
            let pos = find_std_pos(l, id);
            let q = l[pos].1 as usize;
            let s = cycle_list_as_slice(cycles);
            let r = s[q].ptr.unwrap();
            let _ = cycle_list_remove(cycles, r as usize);
            swap_out_ptr(ptrs, r);
            true
        },
        CycleSyncAction::Update => {
            let l = ptr_list_as_slice(ptrs);
            let pos = find_std_pos(l, id);
            let q = l[pos].1 as usize;
            let s = cycle_list_as_slice(cycles);
            let mut u = s[q].clone();
            u.update_with_cli_info(&c);
            match next {
                NextEvent::At(t) => {
                    u.schedule.start = t;
                    cycle_list_set(cycles, q, u);
                    true
                },
                NextEvent::NoEvent => {
                    cycle_list_set(cycles, q, u);
                    true
                },
                NextEvent::Invalid => {
                    let ghost gu = u;
                    let m = CycleError::CantUpdateCycleSchedule(u.name.clone()).message();
                    cycle_list_set(cycles, q, u);
                    msgs.push(m);
                    assert(strings_view(msgs@) =~= m0.push(CycleError::CantUpdateCycleSchedule(gu.name).spec_message()));
                    false
                },
            }
        },
    }
}

/// A copy of a cycle list.
fn copy_cycles(l: &CycleList) -> (r: CycleList)
    ensures
        cycle_list_items(r) == cycle_list_items(*l),
{
    let s = cycle_list_as_slice(l);
    let mut r = cycle_list_new();
    let mut i: usize = 0;
    while i < s.len()
        invariant
            s@ == cycle_list_items(*l),
            s@.len() <= MAX_CYCLES,
            i <= s@.len(),
            cycle_list_items(r) == s@.take(i as int),
        decreases s.len() - i,
    {
        cycle_list_push(&mut r, s[i].clone());
        assert(s@.take(i + 1) =~= s@.take(i as int).push(s@[i as int]));
        i = i + 1;
    }
    assert(s@.take(s@.len() as int) =~= s@);
    r
}

/// A copy of a standard cycles list.
fn copy_ptrs(l: &PtrList) -> (r: PtrList)
    ensures
        ptr_list_items(r) == ptr_list_items(*l),
{
    let s = ptr_list_as_slice(l);
    let n = ptr_list_len(l);
    let mut r = ptr_list_new();
    let mut i: usize = 0;
    while i < n
        invariant
            s@ == ptr_list_items(*l),
            n == s@.len(),
            n <= MAX_STANDARD_CYCLES,
            i <= n,
            ptr_list_items(r) == s@.take(i as int),
        decreases n - i,
    {
        ptr_list_push(&mut r, s[i]);
        assert(s@.take(i + 1) =~= s@.take(i as int).push(s@[i as int]));
        i = i + 1;
    }
    assert(s@.take(n as int) =~= s@);
    r
}

impl WtrCtl {
    /// Whether the client's cycle `c` can be applied to the cycles and this
    /// machine's standard cycles list (see `step_ok`).
    pub fn client_cycle_ok(&self, cycles: &CycleList, c: &Cycle, next: NextEvent, time: CtrlTime) -> (ok: bool)
        ensures
            ok == step_ok(cycle_list_items(*cycles), ptr_list_items(self.std_ptrs), *c, next, time),
    {
        step_ok_exec(cycles, &self.std_ptrs, c, next, time)
    }

    /// What is to be done with the client's cycle `c`: `cycle_sync_action`,
    /// the cycle counting as new when no cycle of the list has its id.
    pub fn client_cycle_action(&self, cycles: &CycleList, c: &Cycle, next: NextEvent, time: CtrlTime)
        -> (a: CycleSyncAction)
        ensures
            a == cycle_sync_action(c.op, is_new_in(cycle_list_items(*cycles), c.run.cycle_id), next, time),
    {
        let is_new = is_new_cycle(cycles, c.run.cycle_id);
        plan_cycle_sync(c.op, is_new, next, time)
    }

    /// Applies one cycle a client sent (see `sync_step`); a cycle that is
    /// added is stored under `new_id`, the id the database gave it.  Tells
    /// whether a cycle changed.
    pub fn apply_client_cycle(&mut self, cycles: &mut CycleList, c: Cycle, next: NextEvent, time: CtrlTime,
        new_id: CycleId, outbox: &mut ErrorOutbox) -> (changed: bool)
        requires
            step_ok(cycle_list_items(*old(cycles)), ptr_list_items(old(self).std_ptrs), c, next, time),
        ensures
            (cycle_list_items(*final(cycles)), ptr_list_items(final(self).std_ptrs), strings_view(
                final(outbox).errors@), changed) == sync_step(sync_start(cycle_list_items(*old(cycles)), ptr_list_items(
                old(self).std_ptrs), strings_view(old(outbox).errors@)), c, next, time, new_id),
            c.op == SyncOp::U ==> ({
                let q = std_cycle_pos(ptr_list_items(old(self).std_ptrs), c.run.cycle_id);
                let s0 = cycle_list_items(*old(cycles));
                let s1 = cycle_list_items(*final(cycles));
                &&& s1.len() == s0.len()
                &&& s1[q].schedule == (Schedule {
                    start: match next {
                        NextEvent::At(t) => t,
                        _ => c.schedule.start,
                    },
                    ..c.schedule
                })
                &&& s1[q].name == c.name
                &&& s1[q].run.cycle_id == s0[q].run.cycle_id
                &&& s1[q].run.run_id == s0[q].run.run_id
                &&& s1[q].ptr == s0[q].ptr
                &&& forall|j: int| 0 <= j < s0.len() && j != q ==> s1[j] == s0[j]
            }),
            final(self).state == old(self).state,
            final(self).mode == old(self).mode,
            final(self).changed == old(self).changed,
            final(self).in_alert == old(self).in_alert,
            final(self).cmd_queue@ == old(self).cmd_queue@,
            final(self).active_ptrs == old(self).active_ptrs,
            final(self).internal == old(self).internal,
            final(self).wtr_secs@ == old(self).wtr_secs@,
            final(self).suspend_timeout == old(self).suspend_timeout,
            final(self).errors@ == old(self).errors@,
    {
        apply_one(&mut self.std_ptrs, cycles, &mut outbox.errors, c, next, time, new_id)
    }

    /// Whether every cycle a client sent can be applied in turn to the
    /// cycles and this machine's standard cycles list (see `step_ok`);
    /// `nexts[i]` is the next event of `client_cycles[i]`'s schedule and
    /// `new_ids[i]` the id it is stored under if it is added.
    pub fn client_sync_ok(&self, cycles: &CycleList, client_cycles: &Vec<Cycle>, nexts: &Vec<NextEvent>,
        new_ids: &Vec<CycleId>, time: CtrlTime) -> (ok: bool)
        requires
            nexts@.len() == client_cycles@.len(),
            new_ids@.len() == client_cycles@.len(),
        ensures
            ok == sync_defined(cycle_list_items(*cycles), ptr_list_items(self.std_ptrs), client_cycles@, nexts@,
                new_ids@, time, client_cycles@.len()),
    {
        let ghost s0 = cycle_list_items(*cycles);
        let ghost ps0 = ptr_list_items(self.std_ptrs);
        let ghost cs = client_cycles@;
        let mut sc = copy_cycles(cycles);
        let mut sp = copy_ptrs(&self.std_ptrs);
        let mut sm: Vec<String> = Vec::new();
        let n = client_cycles.len();
        let mut i: usize = n;
        while i > 0
            invariant
                n == cs.len(),
                cs == client_cycles@,
                nexts@.len() == n,
                new_ids@.len() == n,
                i <= n,
                s0 == cycle_list_items(*cycles),
                ps0 == ptr_list_items(self.std_ptrs),
                sync_defined(s0, ps0, cs, nexts@, new_ids@, time, (n - i) as nat),
                ({
                    let st = sync_fold(sync_start(s0, ps0, Seq::empty()), cs, nexts@, new_ids@, time, (n - i) as nat);
                    cycle_list_items(sc) == st.0 && ptr_list_items(sp) == st.1 && strings_view(sm@) == st.2
                }),
            decreases i,
        {
            let ghost m = (n - i) as nat;
            let ghost st = sync_fold(sync_start(s0, ps0, Seq::empty()), cs, nexts@, new_ids@, time, m);
            i = i - 1;
            assert(cs.len() - (m + 1) == i);
            let c = client_cycles[i].clone();
            let next = nexts[i];
            if !step_ok_exec(&sc, &sp, &c, next, time) {
                proof {
                    assert(c == cs[i as int]);
                    assert(!sync_defined(s0, ps0, cs, nexts@, new_ids@, time, m + 1));
                    if sync_defined(s0, ps0, cs, nexts@, new_ids@, time, n as nat) {
                        lemma_defined_prefix(s0, ps0, cs, nexts@, new_ids@, time, m + 1, n as nat);
                    }
                }
                return false;
            }
            let _ = apply_one(&mut sp, &mut sc, &mut sm, c, next, time, new_ids[i]);
            proof {
                lemma_step_changed(st, cs[i as int], nexts@[i as int], time, new_ids@[i as int]);
            }
        }
        true
    }

    /// Applies the cycles a client sent, from the last to the first, when
    /// the machine is in manual mode (in any other mode nothing changes):
    /// each one as `apply_client_cycle` does, `new_ids[i]` being the id
    /// `client_cycles[i]` is stored under if it is added, and `nexts[i]` the
    /// next event of its schedule after `time`.  Tells whether a cycle
    /// changed.
    pub fn apply_client_cycles(&mut self, cycles: &mut CycleList, client_cycles: Vec<Cycle>, nexts: &Vec<NextEvent>,
        new_ids: &Vec<CycleId>, time: CtrlTime, outbox: &mut ErrorOutbox) -> (changed: bool)
        requires
            nexts@.len() == client_cycles@.len(),
            new_ids@.len() == client_cycles@.len(),
            old(self).mode == Mode::Manual ==> sync_defined(cycle_list_items(*old(cycles)), ptr_list_items(
                old(self).std_ptrs), client_cycles@, nexts@, new_ids@, time, client_cycles@.len()),
        ensures
            old(self).mode != Mode::Manual ==> {
                &&& !changed
                &&& cycle_list_items(*final(cycles)) == cycle_list_items(*old(cycles))
                &&& ptr_list_items(final(self).std_ptrs) == ptr_list_items(old(self).std_ptrs)
                &&& final(outbox).errors@ == old(outbox).errors@
            },
            old(self).mode == Mode::Manual ==> (cycle_list_items(*final(cycles)), ptr_list_items(final(self).std_ptrs),
                strings_view(final(outbox).errors@), changed) == sync_fold(sync_start(cycle_list_items(*old(cycles)),
                ptr_list_items(old(self).std_ptrs), strings_view(old(outbox).errors@)), client_cycles@, nexts@,
                new_ids@, time, client_cycles@.len()),
            final(self).state == old(self).state,
            final(self).mode == old(self).mode,
            final(self).changed == old(self).changed,
            final(self).in_alert == old(self).in_alert,
            final(self).cmd_queue@ == old(self).cmd_queue@,
            final(self).active_ptrs == old(self).active_ptrs,
            final(self).internal == old(self).internal,
            final(self).wtr_secs@ == old(self).wtr_secs@,
            final(self).suspend_timeout == old(self).suspend_timeout,
            final(self).errors@ == old(self).errors@,
    {
        if !self.mode.is_manual() {
            return false;
        }
        let ghost s0 = cycle_list_items(*cycles);
        let ghost ps0 = ptr_list_items(self.std_ptrs);
        let ghost start = sync_start(s0, ps0, strings_view(outbox.errors@));
        let ghost cs = client_cycles@;
        let n = client_cycles.len();
        let mut changed = false;
        let mut i: usize = n;
        while i > 0
            invariant
                n == cs.len(),
                cs == client_cycles@,
                nexts@.len() == n,
                new_ids@.len() == n,
                i <= n,
                sync_defined(s0, ps0, cs, nexts@, new_ids@, time, n as nat),
                (cycle_list_items(*cycles), ptr_list_items(self.std_ptrs), strings_view(outbox.errors@), changed)
                    == sync_fold(start, cs, nexts@, new_ids@, time, (n - i) as nat),
                start.0 == s0,
                start.1 == ps0,
                self.state == old(self).state,
                self.mode == old(self).mode,
                self.changed == old(self).changed,
                self.in_alert == old(self).in_alert,
                self.cmd_queue@ == old(self).cmd_queue@,
                self.active_ptrs == old(self).active_ptrs,
                self.internal == old(self).internal,
                self.wtr_secs@ == old(self).wtr_secs@,
                self.suspend_timeout == old(self).suspend_timeout,
                self.errors@ == old(self).errors@,
            decreases i,
        {
            let ghost m = (n - i) as nat;
            let ghost st = sync_fold(start, cs, nexts@, new_ids@, time, m);
            proof {
                lemma_defined_prefix(s0, ps0, cs, nexts@, new_ids@, time, m + 1, n as nat);
                lemma_fold_shape(start, sync_start(s0, ps0, Seq::empty()), cs, nexts@, new_ids@, time, m);
            }
            i = i - 1;
            assert(cs.len() - (m + 1) == i);
            let c = client_cycles[i].clone();
            let next = nexts[i];
            let ch = apply_one(&mut self.std_ptrs, cycles, &mut outbox.errors, c, next, time, new_ids[i]);
            proof {
                lemma_step_changed(st, cs[i as int], nexts@[i as int], time, new_ids@[i as int]);
            }
            changed = changed || ch;
        }
        changed
    }
}

} // verus!
