//! A clock that counts from the first reading it is shown.

use core::sync::atomic::AtomicU32;
use core::sync::atomic::Ordering;
use vstd::prelude::*;

verus! {

/// What every reported time is shifted by.
pub const TIME_OFFSET: u32 = 100;

/// The reference reading, shared by all callers. Zero stands for "none yet".
pub struct RefTime(AtomicU32);

/// Distance from `ref_t` to `real_time` on the 32-bit clock face.
pub open spec fn spec_elapsed(real_time: u32, ref_t: u32) -> nat {
    if real_time >= ref_t {
        (real_time - ref_t) as nat
    } else {
        (real_time + 0x1_0000_0000 - ref_t) as nat
    }
}

/// The reference that a reading is counted from, given what the exchange of the
/// stored reference returned: the stored one where there was one, and zero for
/// the reading that became the reference.
pub open spec fn spec_reference(exchange: Result<u32, u32>) -> u32 {
    match exchange {
        Ok(_) => 0,
        Err(stored) => stored,
    }
}

/// The time reported for `real_time` counted from `ref_t`, where a `u32` can
/// hold it.
pub open spec fn spec_time_since(real_time: u32, ref_t: u32) -> Option<u32> {
    if spec_elapsed(real_time, ref_t) + TIME_OFFSET <= u32::MAX {
        Some((spec_elapsed(real_time, ref_t) + TIME_OFFSET) as u32)
    } else {
        None
    }
}

/// The time reported for `real_time` counted from `ref_t`.
pub fn time_since(real_time: u32, ref_t: u32) -> (time: Option<u32>)
    ensures
        time == spec_time_since(real_time, ref_t),
{
    real_time.wrapping_sub(ref_t).checked_add(TIME_OFFSET)
}

/// The time reported for `real_time`, given what the exchange of the stored
/// reference returned.
pub fn time_after_exchange(real_time: u32, exchange: Result<u32, u32>) -> (time: Option<u32>)
    ensures
        time == spec_time_since(real_time, spec_reference(exchange)),
{
    let ref_t = match exchange {
        Ok(_) => 0,
        Err(stored) => stored,
    };
    time_since(real_time, ref_t)
}

impl RefTime {
    /// A clock without a reference.
    pub fn new() -> Self {
        RefTime(AtomicU32::new(0))
    }

    /// Makes `real_time` the reference where there is none, and reports
    /// `real_time` counted from the reference that was stored, or from zero
    /// where there was none. Which of the two it is depends on the other
    /// callers; either way the result is the time since some reference, or
    /// nothing where a `u32` cannot hold that time.
    pub fn get_time(&self, real_time: u32) -> (time: Option<u32>)
        ensures
            exists|ref_t: u32| time == spec_time_since(real_time, ref_t),
    {
        let exchange = self.0.compare_exchange(0, real_time, Ordering::Acquire, Ordering::Relaxed);
        let time = time_after_exchange(real_time, exchange);
        proof {
            assert(time == spec_time_since(real_time, spec_reference(exchange)));
        }
        time
    }
}

} // verus!
