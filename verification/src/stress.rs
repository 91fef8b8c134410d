//! The window of rain that the periodic water-stress control takes into
//! account.
use vstd::prelude::*;
use crate::cycle::NR_NANOS_IN_A_DAY;
use crate::rega::CtrlTime;

verus! {

/// Since when the rain counts at `time`, when `nanos_elapsed` passed since
/// the last control: from the last control, but never less than a day back.
pub fn rain_since(time: CtrlTime, nanos_elapsed: u64) -> (r: CtrlTime)
    requires
        time.0 >= nanos_elapsed,
        time.0 >= NR_NANOS_IN_A_DAY,
    ensures
        r.0 == (if nanos_elapsed >= NR_NANOS_IN_A_DAY { time.0 - nanos_elapsed } else { time.0 - NR_NANOS_IN_A_DAY }),
        r.0 <= time.0 - NR_NANOS_IN_A_DAY,
{
    let a = time.0 - nanos_elapsed;
    let b = time.0 - NR_NANOS_IN_A_DAY;
    if a < b { CtrlTime(a) } else { CtrlTime(b) }
}

} // verus!
