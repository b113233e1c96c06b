//! Doubling of values that are not negative.

use vstd::prelude::*;

verus! {

/// Doubles `value`. A negative value is rejected; nothing else is.
///
/// The double has to fit: callers keep `value` at or below half of
/// `i32::MAX`.
pub fn operation(value: i32) -> (r: Result<i32, String>)
    requires
        value * 2 <= i32::MAX,
    ensures
        match r {
            Ok(double) => value >= 0 && double == value * 2,
            Err(reason) => value < 0 && reason@ == "Negative value"@,
        },
{
    if value < 0 {
        Err(String::from_str("Negative value"))
    } else {
        Ok(value * 2)
    }
}

} // verus!
