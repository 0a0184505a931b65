use vstd::prelude::*;
use crate::error::ErrorKind;

verus! {

/// Adds `delta` to `balance`, failing instead of wrapping around.
pub fn checked_add(balance: u64, delta: u64) -> (r: Result<u64, ErrorKind>)
    ensures
        balance + delta <= u64::MAX ==> r == Ok::<u64, ErrorKind>((balance + delta) as u64),
        balance + delta > u64::MAX ==> r == Err::<u64, ErrorKind>(ErrorKind::ArithmeticOverflow),
{
    match balance.checked_add(delta) {
        Some(s) => Ok(s),
        None => Err(ErrorKind::ArithmeticOverflow),
    }
}

} // verus!
