//! The two integer scales and the maps between them.
//!
//! Callers speak of brightness, effect speed and sensitivity on a scale of
//! `0..=100`; the device counts them on a scale of `0..=255`.

use vstd::prelude::*;

verus! {

/// The top of the human-facing scale.
pub const HUMAN_MAX: u8 = 100;

/// The top of the device's scale.
pub const NATIVE_MAX: u8 = 255;

/// `human` on the device's scale: `human * 255 / 100`, rounded down.
pub open spec fn to_native(human: int) -> int {
    human * 255 / 100
}

/// `native` on the human-facing scale: `native * 100 / 255`, rounded down.
pub open spec fn to_human(native: int) -> int {
    native * 100 / 255
}

/// A human value lands inside the device's scale.
pub proof fn lemma_to_native_in_range(human: int)
    requires
        0 <= human <= 100,
    ensures
        0 <= to_native(human) <= 255,
{
}

/// A larger human value never gives a smaller device value.
pub proof fn lemma_to_native_monotonic(low: int, high: int)
    requires
        0 <= low <= high <= 100,
    ensures
        to_native(low) <= to_native(high),
{
}

/// A device value lands inside the human-facing scale.
pub proof fn lemma_to_human_in_range(native: int)
    requires
        0 <= native <= 255,
    ensures
        0 <= to_human(native) <= 100,
{
}

/// A larger device value never gives a smaller human value.
pub proof fn lemma_to_human_monotonic(low: int, high: int)
    requires
        0 <= low <= high <= 255,
    ensures
        to_human(low) <= to_human(high),
{
}

/// Both ends of the human scale survive the trip to the device's scale and back.
pub proof fn lemma_round_trip_edges()
    ensures
        to_human(to_native(0)) == 0,
        to_human(to_native(100)) == 100,
{
}

/// The trip to the device's scale and back loses at most one step, and never
/// gains one.
pub proof fn lemma_round_trip_loss(human: int)
    requires
        0 <= human <= 100,
    ensures
        human - 1 <= to_human(to_native(human)) <= human,
{
}

} // verus!
