//! Small conversions shared by the other modules.

use vstd::prelude::*;
use crate::err::EOVERFLOW;
use crate::err_::Error;

verus! {

/// Convert a 64-bit length or offset to the machine word: the same number
/// where it fits, the error `EOVERFLOW` where it does not.
pub fn try_to_usize(n: u64) -> (r: Result<usize, Error>)
    ensures
        n <= usize::MAX ==> r == Ok::<usize, Error>(n as usize),
        n > usize::MAX ==> r == Err::<usize, Error>(Error::of(EOVERFLOW)),
{
    if n <= usize::MAX as u64 {
        Ok(n as usize)
    } else {
        Err(Error::known(EOVERFLOW))
    }
}

} // verus!
