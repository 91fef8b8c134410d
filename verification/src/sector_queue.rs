//! The watering queue of the running cycle and the running pointers: how a
//! cycle start fills the queue, how sectors are taken from it, and what a
//! suspend, a resume and a stop do to it.  The durations, the valves and the
//! database are the caller's part; these methods keep the bookkeeping.
use vstd::prelude::*;
use crate::engine::WtrCtl;
use crate::ptr_list::ptr_list_items;
use crate::rega::{CtrlTime, RunningPtr, SectorId, SectorPtr};

verus! {

/// Nanoseconds in a minute.
pub const NANOS_PER_MINUTE: u64 = 60_000_000_000;

/// The sector runs that get water, in order: the `i`-th run of `ids` is
/// queued, with its position `i`, when `waters[i]` holds.
pub open spec fn watered_runs(ids: Seq<SectorId>, waters: Seq<bool>, n: nat) -> Seq<(SectorId, SectorPtr)>
    decreases n,
{
    if n == 0 {
        Seq::empty()
    } else {
        let prev = watered_runs(ids, waters, (n - 1) as nat);
        if waters[n - 1] {
            prev.push((ids[n - 1], (n - 1) as u8))
        } else {
            prev
        }
    }
}

/// The sector forced by hand, if any: in manual operation with a chosen
/// sector, the cycle waters that sector (its run is the only one, at 0).
pub open spec fn forced_sector(p: RunningPtr, is_manual: bool) -> Option<SectorId> {
    if is_manual { p.sec_id } else { None }
}

/// The running pointers once the queue is `q`: its front is the running
/// sector, or no sector runs when it is empty.
pub open spec fn front_ptrs(p: RunningPtr, q: Seq<(SectorId, SectorPtr)>) -> RunningPtr {
    if q.len() > 0 {
        RunningPtr { cycle: p.cycle, sec_id: Some(q[0].0), run_sec_ptr: Some(q[0].1) }
    } else {
        RunningPtr { cycle: p.cycle, sec_id: None, run_sec_ptr: None }
    }
}

/// Whether a cycle, a sector and its run are all set.
pub open spec fn sector_is_active(p: RunningPtr) -> bool {
    p.cycle is Some && p.sec_id is Some && p.run_sec_ptr is Some
}

/// The queue after a suspend: the running sector, if any, back at its front.
pub open spec fn suspended_queue(p: RunningPtr, q: Seq<(SectorId, SectorPtr)>) -> Seq<(SectorId, SectorPtr)> {
    if sector_is_active(p) {
        seq![(p.sec_id.unwrap(), p.run_sec_ptr.unwrap())] + q
    } else {
        q
    }
}

/// A resume: with a sector active and a sector queued, the front of the
/// queue leaves it and runs; otherwise nothing changes.  Gives the sector
/// restarted, the running pointers and the queue.
pub open spec fn resumed(p: RunningPtr, q: Seq<(SectorId, SectorPtr)>)
    -> (Option<(SectorId, SectorPtr)>, RunningPtr, Seq<(SectorId, SectorPtr)>)
{
    if sector_is_active(p) && q.len() > 0 {
        (Some(q[0]), RunningPtr { cycle: p.cycle, sec_id: Some(q[0].0), run_sec_ptr: Some(q[0].1) }, q.drop_first())
    } else {
        (None, p, q)
    }
}

impl WtrCtl {
    /// The fields that the queue bookkeeping leaves as they were.
    pub open spec fn same_but_queue(&self, other: &WtrCtl) -> bool {
        &&& self.state == other.state
        &&& self.mode == other.mode
        &&& self.changed == other.changed
        &&& self.in_alert == other.in_alert
        &&& self.cmd_queue@ == other.cmd_queue@
        &&& self.internal == other.internal
        &&& ptr_list_items(self.std_ptrs) == ptr_list_items(other.std_ptrs)
        &&& self.errors@ == other.errors@
    }

    /// The sector forced by hand, if any (see `forced_sector`).
    pub fn forced_sector(&self, is_manual: bool) -> (r: Option<SectorId>)
        ensures
            r == forced_sector(self.active_ptrs, is_manual),
    {
        if is_manual { self.active_ptrs.sec_id } else { None }
    }

    /// Fills the watering queue at the start of the active cycle.  `ids` are
    /// the sectors of the cycle's runs, in order, and `waters[i]` tells
    /// whether run `i` lasts long enough to be watered.  A sector forced by
    /// hand goes first, as run 0.  The front of the queue becomes the
    /// running sector.
    pub fn queue_cycle_sectors(&mut self, is_manual: bool, ids: &Vec<SectorId>, waters: &Vec<bool>)
        requires
            ids@.len() == waters@.len(),
            ids@.len() <= 256,
        ensures
            final(self).wtr_secs@ == (match forced_sector(old(self).active_ptrs, is_manual) {
                Some(s) => seq![(s, 0u8)],
                None => Seq::empty(),
            }) + watered_runs(ids@, waters@, ids@.len() as nat),
            final(self).active_ptrs == front_ptrs(old(self).active_ptrs, final(self).wtr_secs@),
            final(self).same_but_queue(old(self)),
            final(self).suspend_timeout == old(self).suspend_timeout,
    {
        let forced = self.forced_sector(is_manual);
        self.wtr_secs.clear();
        match forced {
            Some(s) => self.wtr_secs.push_back((s, 0u8)),
            None => {},
        }
        let ghost start = self.wtr_secs@;
        let mut i: usize = 0;
        while i < ids.len()
            invariant
                ids@.len() == waters@.len(),
                ids@.len() <= 256,
                i <= ids@.len(),
                self.wtr_secs@ == start + watered_runs(ids@, waters@, i as nat),
                self.active_ptrs == old(self).active_ptrs,
                self.suspend_timeout == old(self).suspend_timeout,
                self.same_but_queue(old(self)),
            decreases ids.len() - i,
        {
            if waters[i] {
                self.wtr_secs.push_back((ids[i], i as u8));
            }
            proof {
                assert(start + watered_runs(ids@, waters@, (i + 1) as nat) =~= if waters@[i as int] {
                    (start + watered_runs(ids@, waters@, i as nat)).push((ids@[i as int], i as u8))
                } else {
                    start + watered_runs(ids@, waters@, i as nat)
                });
            }
            i = i + 1;
        }
        if self.wtr_secs.len() > 0 {
            let (s, p) = self.wtr_secs[0];
            self.active_ptrs.sec_id = Some(s);
            self.active_ptrs.run_sec_ptr = Some(p);
        } else {
            self.active_ptrs.reset_sec();
        }
    }

    /// The sector to start: in manual operation the one the pointers hold,
    /// otherwise the front of the queue, which leaves it.  It becomes the
    /// running sector.
    pub fn take_sector(&mut self, is_manual: bool) -> (r: (SectorId, SectorPtr))
        requires
            is_manual ==> old(self).active_ptrs.sec_id is Some && old(self).active_ptrs.run_sec_ptr is Some,
            !is_manual ==> old(self).wtr_secs@.len() > 0,
        ensures
            is_manual ==> r == (old(self).active_ptrs.sec_id.unwrap(), old(self).active_ptrs.run_sec_ptr.unwrap())
                && final(self).wtr_secs@ == old(self).wtr_secs@,
            !is_manual ==> r == old(self).wtr_secs@[0]
                && final(self).wtr_secs@ == old(self).wtr_secs@.drop_first(),
            final(self).active_ptrs == (RunningPtr { cycle: old(self).active_ptrs.cycle, sec_id: Some(r.0), run_sec_ptr: Some(r.1) }),
            final(self).same_but_queue(old(self)),
            final(self).suspend_timeout == old(self).suspend_timeout,
    {
        let r = if is_manual {
            (self.active_ptrs.sec_id.unwrap(), self.active_ptrs.run_sec_ptr.unwrap())
        } else {
            let front = self.wtr_secs.pop_front();
            front.unwrap()
        };
        self.active_ptrs.sec_id = Some(r.0);
        self.active_ptrs.run_sec_ptr = Some(r.1);
        r
    }

    /// Whether a cycle, a sector and its run are all set.
    pub fn has_active_sector(&self) -> (r: bool)
        ensures
            r == sector_is_active(self.active_ptrs),
    {
        self.active_ptrs.cycle.is_some() && self.active_ptrs.sec_id.is_some() && self.active_ptrs.run_sec_ptr.is_some()
    }

    /// Suspends the watering at `time` for `timeout_min` minutes: the running
    /// sector, if any, goes back to the front of the queue (its pointers stay
    /// set) and the suspension ends at `time` plus the timeout.
    pub fn suspend_queue(&mut self, time: CtrlTime, timeout_min: u16)
        requires
            time.0 + timeout_min * NANOS_PER_MINUTE <= u64::MAX,
        ensures
            final(self).wtr_secs@ == suspended_queue(old(self).active_ptrs, old(self).wtr_secs@),
            final(self).suspend_timeout == Some(CtrlTime((time.0 + timeout_min * NANOS_PER_MINUTE) as u64)),
            final(self).active_ptrs == old(self).active_ptrs,
            final(self).same_but_queue(old(self)),
    {
        if self.has_active_sector() {
            let s = self.active_ptrs.sec_id.unwrap();
            let p = self.active_ptrs.run_sec_ptr.unwrap();
            self.wtr_secs.push_front((s, p));
        }
        let timeout: u64 = (timeout_min as u64) * NANOS_PER_MINUTE;
        self.suspend_timeout = Some(CtrlTime(time.0 + timeout));
    }

    /// Resumes a suspended cycle: with a sector active, the front of the
    /// queue leaves it and becomes the running sector, and is returned.
    /// Without an active sector, or with an empty queue, nothing changes.
    pub fn resume_queue(&mut self) -> (r: Option<(SectorId, SectorPtr)>)
        ensures
            (r, final(self).active_ptrs, final(self).wtr_secs@) == resumed(old(self).active_ptrs, old(self).wtr_secs@),
            final(self).suspend_timeout == old(self).suspend_timeout,
            final(self).same_but_queue(old(self)),
    {
        if self.has_active_sector() && self.wtr_secs.len() > 0 {
            let front = self.wtr_secs.pop_front();
            let (s, p) = front.unwrap();
            self.active_ptrs.sec_id = Some(s);
            self.active_ptrs.run_sec_ptr = Some(p);
            Some((s, p))
        } else {
            None
        }
    }

    /// Stops the active cycle: the sectors still queued are not watered and
    /// are returned in order; the queue empties and no cycle is active.
    pub fn stop_cycle_queue(&mut self) -> (skipped: Vec<(SectorId, SectorPtr)>)
        requires
            old(self).active_ptrs.cycle is Some,
        ensures
            skipped@ == old(self).wtr_secs@,
            final(self).wtr_secs@ == Seq::<(SectorId, SectorPtr)>::empty(),
            final(self).active_ptrs == (RunningPtr { cycle: None, ..old(self).active_ptrs }),
            final(self).suspend_timeout == old(self).suspend_timeout,
            final(self).same_but_queue(old(self)),
    {
        let mut skipped: Vec<(SectorId, SectorPtr)> = Vec::new();
        let ghost start = self.wtr_secs@;
        while self.wtr_secs.len() > 0
            invariant
                skipped@ + self.wtr_secs@ == start,
                self.active_ptrs == old(self).active_ptrs,
                self.suspend_timeout == old(self).suspend_timeout,
                self.same_but_queue(old(self)),
            decreases self.wtr_secs@.len(),
        {
            let front = self.wtr_secs.pop_front();
            let item = front.unwrap();
            skipped.push(item);
            proof {
                assert(skipped@ + self.wtr_secs@ =~= start);
            }
        }
        assert(skipped@ =~= start);
        self.active_ptrs.cycle = None;
        skipped
    }

    /// Stops the running sector: its pointers are cleared, the cycle stays.
    pub fn stop_sector_ptrs(&mut self)
        ensures
            final(self).active_ptrs == (RunningPtr { cycle: old(self).active_ptrs.cycle, sec_id: None, run_sec_ptr: None }),
            final(self).wtr_secs@ == old(self).wtr_secs@,
            final(self).suspend_timeout == old(self).suspend_timeout,
            final(self).same_but_queue(old(self)),
    {
        self.active_ptrs.reset_sec();
    }
}

/// The sectors a cycle waters, in order, when it starts: the one forced by
/// hand, if any; otherwise every enabled sector of `sectors` (id, enabled).
pub open spec fn sectors_to_run(forced: Option<SectorId>, sectors: Seq<(SectorId, bool)>) -> Seq<SectorId>
    decreases sectors.len(),
{
    match forced {
        Some(s) => seq![s],
        None => if sectors.len() == 0 {
            Seq::empty()
        } else {
            let prev = sectors_to_run(None, sectors.drop_last());
            if sectors.last().1 { prev.push(sectors.last().0) } else { prev }
        },
    }
}

/// See `sectors_to_run`.
pub fn run_sectors(forced: Option<SectorId>, sectors: &Vec<(SectorId, bool)>) -> (r: Vec<SectorId>)
    ensures
        r@ == sectors_to_run(forced, sectors@),
{
    let mut r: Vec<SectorId> = Vec::new();
    match forced {
        Some(s) => {
            r.push(s);
            assert(r@ =~= seq![s]);
        },
        None => {
            let mut i: usize = 0;
            while i < sectors.len()
                invariant
                    forced is None,
                    i <= sectors@.len(),
                    r@ == sectors_to_run(None, sectors@.take(i as int)),
                decreases sectors.len() - i,
            {
                proof {
                    assert(sectors@.take(i + 1).drop_last() =~= sectors@.take(i as int));
                }
                if sectors[i].1 {
                    r.push(sectors[i].0);
                }
                i = i + 1;
            }
            assert(sectors@.take(sectors@.len() as int) =~= sectors@);
        },
    }
    r
}

/// Suspending the watering and resuming it, with nothing in between, gives
/// back the same running sector and the same watering queue; the sector that
/// restarts is the one that was suspended.
pub proof fn law_suspend_then_resume_restores(p: RunningPtr, q: Seq<(SectorId, SectorPtr)>)
    requires
        sector_is_active(p),
    ensures
        resumed(p, suspended_queue(p, q)) == (Some((p.sec_id.unwrap(), p.run_sec_ptr.unwrap())), p, q),
{
    let s = suspended_queue(p, q);
    assert(s.drop_first() =~= q);
}

/// After the sector forced by hand, if any, starting a cycle queues exactly
/// the runs that get water, each run once, in the order of the runs (a forced
/// sector whose run gets water is thus queued a second time).
pub proof fn law_queue_follows_runs(ids: Seq<SectorId>, waters: Seq<bool>, n: nat)
    requires
        ids.len() == waters.len(),
        n <= ids.len() <= 256,
    ensures
        forall|k: int| 0 <= k < watered_runs(ids, waters, n).len() ==> {
            let (s, p) = #[trigger] watered_runs(ids, waters, n)[k];
            &&& 0 <= p < n
            &&& waters[p as int]
            &&& s == ids[p as int]
        },
        forall|k: int, l: int| 0 <= k < l < watered_runs(ids, waters, n).len()
            ==> (#[trigger] watered_runs(ids, waters, n)[k]).1 < (#[trigger] watered_runs(ids, waters, n)[l]).1,
        forall|p: int| 0 <= p < n && #[trigger] waters[p] ==> watered_runs(ids, waters, n).contains((ids[p], p as u8)),
        watered_runs(ids, waters, n).len() <= n,
    decreases n,
{
    if n > 0 {
        let m = (n - 1) as nat;
        law_queue_follows_runs(ids, waters, m);
        let prev = watered_runs(ids, waters, m);
        assert forall|p: int| 0 <= p < n && #[trigger] waters[p] implies watered_runs(ids, waters, n).contains(
            (ids[p], p as u8)) by {
            if p < m {
                let k = choose|k: int| 0 <= k < prev.len() && prev[k] == (ids[p], p as u8);
                if waters[m as int] {
                    assert(prev.push((ids[m as int], m as u8))[k] == (ids[p], p as u8));
                }
            } else {
                assert(prev.push((ids[m as int], m as u8))[prev.len() as int] == (ids[p], p as u8));
            }
        }
    }
}

/// Whether `id` is the id of an enabled sector of `sectors`.
pub open spec fn is_enabled_sector(sectors: Seq<(SectorId, bool)>, id: SectorId) -> bool {
    exists|i: int| 0 <= i < sectors.len() && sectors[i].1 && sectors[i].0 == id
}

/// The sectors a starting cycle waters: only the forced one when a sector
/// was forced by hand; otherwise exactly the enabled sectors, each as often
/// as it is listed and in the order listed, and never a disabled one.
pub proof fn law_sectors_to_run(forced: Option<SectorId>, sectors: Seq<(SectorId, bool)>)
    ensures
        forced matches Some(s) ==> sectors_to_run(forced, sectors) == seq![s],
        forced is None ==> (forall|k: int| 0 <= k < sectors_to_run(forced, sectors).len() ==> is_enabled_sector(sectors,
            #[trigger] sectors_to_run(forced, sectors)[k])),
        forced is None ==> (forall|i: int| 0 <= i < sectors.len() && #[trigger] sectors[i].1 ==> sectors_to_run(
            forced, sectors).contains(sectors[i].0)),
        forced is None ==> sectors_to_run(forced, sectors).len() <= sectors.len(),
        forced is None && (forall|i: int| 0 <= i < sectors.len() ==> #[trigger] sectors[i].1) ==> sectors_to_run(
            forced, sectors).len() == sectors.len(),
    decreases sectors.len(),
{
    if forced is None && sectors.len() > 0 {
        let prev_s = sectors.drop_last();
        law_sectors_to_run(None, prev_s);
        let prev = sectors_to_run(None, prev_s);
        let r = sectors_to_run(None, sectors);
        let n = sectors.len() - 1;
        assert(sectors_to_run(forced, sectors) == r);
        assert forall|k: int| 0 <= k < r.len() implies is_enabled_sector(sectors, #[trigger] r[k]) by {
            if k < prev.len() {
                assert(r[k] == prev[k]);
                assert(is_enabled_sector(prev_s, prev[k]));
                let i = choose|i: int| 0 <= i < prev_s.len() && prev_s[i].1 && prev_s[i].0 == prev[k];
                assert(sectors[i] == prev_s[i]);
                assert(0 <= i < sectors.len() && sectors[i].1 && r[k] == sectors[i].0);
            } else {
                assert(r[k] == sectors[n].0 && sectors[n].1);
                assert(0 <= n < sectors.len() && sectors[n].1 && r[k] == sectors[n].0);
            }
        }
        assert forall|i: int| 0 <= i < sectors.len() && #[trigger] sectors[i].1 implies r.contains(sectors[i].0) by {
            if i < n {
                assert(prev_s[i] == sectors[i]);
                assert(prev.contains(sectors[i].0));
                let k = choose|k: int| 0 <= k < prev.len() && prev[k] == sectors[i].0;
                assert(r[k] == prev[k]);
            } else {
                assert(r[r.len() - 1] == sectors[n].0);
            }
        }
        if forall|i: int| 0 <= i < sectors.len() ==> #[trigger] sectors[i].1 {
            assert forall|i: int| 0 <= i < prev_s.len() implies #[trigger] prev_s[i].1 by {
                assert(prev_s[i] == sectors[i]);
            }
            assert(sectors[n].1);
        }
    }
}

/// The running sector of a queue is its front, in the same cycle; with an
/// empty queue no sector runs.  A resume with no active sector, or with
/// nothing queued, changes nothing and restarts no sector.
pub proof fn law_front_is_running(p: RunningPtr, q: Seq<(SectorId, SectorPtr)>)
    ensures
        q.len() > 0 ==> front_ptrs(p, q) == (RunningPtr { cycle: p.cycle, sec_id: Some(q[0].0), run_sec_ptr: Some(
            q[0].1) }),
        q.len() == 0 ==> front_ptrs(p, q) == (RunningPtr { cycle: p.cycle, sec_id: None, run_sec_ptr: None }),
        !(p.cycle is Some && p.sec_id is Some && p.run_sec_ptr is Some) || q.len() == 0 ==> resumed(p, q) == (None::<(SectorId, SectorPtr)>, p, q),
        p.cycle is Some && p.sec_id is Some && p.run_sec_ptr is Some && q.len() > 0 ==> resumed(p, q) == (Some(q[0]),
            RunningPtr { cycle: p.cycle, sec_id: Some(q[0].0), run_sec_ptr: Some(q[0].1) }, q.drop_first()),
        p.cycle is Some && p.sec_id is Some && p.run_sec_ptr is Some ==> suspended_queue(p, q) == seq![(
            p.sec_id.unwrap(), p.run_sec_ptr.unwrap())] + q,
{
}

} // verus!
