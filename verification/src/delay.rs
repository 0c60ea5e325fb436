//! Busy-wait delays over the system timer. The timer counts down from a
//! 24-bit reload value; the spin that waits for the wrap lives with the
//! device glue, and only the reload computation is here.

use vstd::prelude::*;

verus! {

/// The widest delay the system timer can count in one go.
pub const MAX_SYSTICK_RELOAD: u32 = 0x00FF_FFFF;

/// The reload value for a delay of `ticks` timer ticks, or nothing when
/// the delay is too long for the 24-bit counter; the caller treats that as
/// a contract violation, as a delay loop cannot split it.
pub fn systick_reload(ticks: u32) -> (r: Option<u32>)
    ensures
        ticks <= MAX_SYSTICK_RELOAD ==> r == Some(ticks),
        ticks > MAX_SYSTICK_RELOAD ==> r is None,
{
    if ticks > MAX_SYSTICK_RELOAD {
        None
    } else {
        Some(ticks)
    }
}

} // verus!
