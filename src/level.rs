use vstd::prelude::*;

verus! {

/// The percentage that a requested level, already scaled by one hundred and
/// truncated toward zero, comes to once it is held to the range 0 to 100.
pub open spec fn clamp_percent(scaled: int) -> int {
    if scaled < 0 {
        0
    } else if scaled > 100 {
        100
    } else {
        scaled
    }
}

/// Holds a requested level (scaled by one hundred, truncated toward zero) to
/// the range 0 to 100: below the range gives 0, above it gives 100.
pub fn applied_percent(scaled: i64) -> (r: u8)
    ensures
        r as int == clamp_percent(scaled as int),
        r <= 100,
{
    if scaled < 0 {
        0
    } else if scaled > 100 {
        100
    } else {
        scaled as u8
    }
}

} // verus!
