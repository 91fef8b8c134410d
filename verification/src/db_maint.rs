//! When the database maintenance runs: a light maintenance every day, just
//! after the end of the day, and a large one (backup and clean-up) every
//! `db_mnt_days` days.
use vstd::prelude::*;
use crate::cycle::NR_NANOS_IN_A_DAY;
use crate::client::NextEvent;
use crate::rega::CtrlTime;

verus! {

/// Nanoseconds in a second.
pub const GIGA_U: u64 = 1_000_000_000;
/// The maintenance starts this long (ten seconds) after its nominal time.
pub const DB_MAINT_START_DELAY: u64 = 10_000_000_000;

/// The maintenance settings and record.
#[derive(Debug, Clone, Copy, PartialEq, Eq, Structural)]
pub struct DbMaintCfg {
    /// Days between large maintenances.
    pub db_mnt_days: u8,
    /// Days counted since the last large maintenance.
    pub db_mnt_counter: u8,
    /// When the last maintenance ran (0: never).
    pub db_mnt_last_run: CtrlTime,
}

/// Which maintenance to run now.
#[derive(Debug, Clone, Copy, PartialEq, Eq, Structural)]
pub enum Maintenance {
    Nothing,
    Daily,
    Large,
}

/// The moment a maintenance due at `time` starts.
pub fn adjust_time_for_delay(time: CtrlTime) -> (r: CtrlTime)
    requires
        time.0 + DB_MAINT_START_DELAY <= u64::MAX,
    ensures
        r.0 == time.0 + DB_MAINT_START_DELAY,
{
    CtrlTime(time.0 + DB_MAINT_START_DELAY)
}

/// Whether no maintenance ever ran.
pub fn is_running_for_first_time(cfg: &DbMaintCfg) -> (r: bool)
    ensures
        r == (cfg.db_mnt_last_run.0 == 0),
{
    cfg.db_mnt_last_run.0 == 0
}

/// `time` moved `days` days later.
pub open spec fn add_days(time: CtrlTime, days: int) -> int {
    time.0 + days * NR_NANOS_IN_A_DAY
}

/// When the first large maintenance starts, given the end of the current day
/// `eod`: the first time ever, `db_mnt_days` days after the start of the
/// service (counting the current day); otherwise `db_mnt_days` days after the
/// last maintenance.  A day counter that went past the period (after frequent
/// restarts) starts again from zero.
pub fn large_mnt_start(cfg: &mut DbMaintCfg, eod: CtrlTime) -> (r: CtrlTime)
    requires
        old(cfg).db_mnt_last_run.0 == 0 ==> old(cfg).db_mnt_days >= 1
            && add_days(eod, old(cfg).db_mnt_days - 1) + DB_MAINT_START_DELAY <= u64::MAX,
        old(cfg).db_mnt_last_run.0 != 0 ==> add_days(old(cfg).db_mnt_last_run, old(cfg).db_mnt_days as int)
            <= u64::MAX && -128 <= (old(cfg).db_mnt_days as i8) - (old(cfg).db_mnt_counter as i8) <= 127,
    ensures
        old(cfg).db_mnt_last_run.0 == 0 ==> r.0 == add_days(eod, old(cfg).db_mnt_days - 1) + DB_MAINT_START_DELAY
            && *final(cfg) == *old(cfg),
        old(cfg).db_mnt_last_run.0 != 0 ==> r.0 == add_days(old(cfg).db_mnt_last_run, old(cfg).db_mnt_days as int)
            && final(cfg).db_mnt_counter == (if (old(cfg).db_mnt_days as i8) - (old(cfg).db_mnt_counter as i8) < 0 {
                0
            } else {
                old(cfg).db_mnt_counter
            }) && final(cfg).db_mnt_days == old(cfg).db_mnt_days
            && final(cfg).db_mnt_last_run == old(cfg).db_mnt_last_run,
{
    if is_running_for_first_time(cfg) {
        let days = (cfg.db_mnt_days - 1) as u64;
        proof {
            assert(days * NR_NANOS_IN_A_DAY <= u64::MAX) by (nonlinear_arith)
                requires
                    days <= 255;
        }
        adjust_time_for_delay(CtrlTime(eod.0 + days * NR_NANOS_IN_A_DAY))
    } else {
        let nr_of_days_to_add: i8 = cfg.db_mnt_days as i8 - cfg.db_mnt_counter as i8;
        if nr_of_days_to_add < 0 {
            cfg.db_mnt_counter = 0;
        }
        let days = cfg.db_mnt_days as u64;
        proof {
            assert(days * NR_NANOS_IN_A_DAY <= u64::MAX) by (nonlinear_arith)
                requires
                    days <= 255;
        }
        CtrlTime(cfg.db_mnt_last_run.0 + days * NR_NANOS_IN_A_DAY)
    }
}

/// The daily maintenance runs only when the large one is not due: the large
/// one does what the daily one does.
pub fn maintenance_to_run(large_due: bool, daily_due: bool) -> (m: Maintenance)
    ensures
        m == (if large_due { Maintenance::Large } else if daily_due { Maintenance::Daily } else {
            Maintenance::Nothing
        }),
{
    if !large_due {
        if daily_due { Maintenance::Daily } else { Maintenance::Nothing }
    } else {
        Maintenance::Large
    }
}

/// Whether the maintenance scheduled at `start` is due at `time`.
pub fn is_time_to_run_mnt(start: CtrlTime, time: CtrlTime) -> (r: bool)
    ensures
        r == (time.0 >= start.0),
{
    time.0 >= start.0
}

/// A maintenance whose start passed while the controller was stopped moves
/// to the next event of its schedule (`next`, computed from `time`); when the
/// schedule gives none, the start stays and the problem is reported.
pub fn adjust_stale_start(start: CtrlTime, time: CtrlTime, next: NextEvent) -> (r: CtrlTime)
    ensures
        r == (if start.0 < time.0 {
            match next {
                NextEvent::At(t) => t,
                _ => start,
            }
        } else {
            start
        }),
{
    if start.0 < time.0 {
        match next {
            NextEvent::At(t) => t,
            _ => start,
        }
    } else {
        start
    }
}

} // verus!
