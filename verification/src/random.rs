//! Random numbers: the kernel's entropy source, and the small generator that
//! it seeds.

use vstd::prelude::*;
use rand::rngs::SmallRng;
use rand::{Rng, SeedableRng};
use crate::err::{EAGAIN, EINTR, ENOSYS};
use crate::err_::Error;

verus! {

/// The small, fast generator of the `rand` crate. Its state is hidden.
#[verifier::external_type_specification]
#[verifier::external_body]
pub struct ExSmallRng(rand::rngs::SmallRng);

/// Bytes in the seed of the small generator.
pub const SEED_LEN: usize = 16;

/// Calls `SeedableRng::from_seed` of `rand::rngs::SmallRng`: a generator
/// whose state is made of the sixteen seed bytes. Nothing is claimed of the
/// generator.
#[verifier::external_body]
pub(crate) fn small_rng_from_seed(seed: [u8; 16]) -> SmallRng {
    SmallRng::from_seed(seed)
}

/// Calls `Rng::gen` of `rand::rngs::SmallRng` for a `u64`: the generator's
/// next 64-bit word. Nothing is claimed of the word.
#[verifier::external_body]
pub(crate) fn small_rng_next(rng: &mut SmallRng) -> u64 {
    rng.gen()
}

/// Flag of the entropy call: fail with `EAGAIN` rather than wait for the
/// entropy source to be ready.
pub const GRND_NONBLOCK: usize = 1;

/// Random numbers via system call.
#[derive(Clone, Copy, Debug, PartialEq, Eq, Structural, PartialOrd, Ord)]
pub struct OsRandom {}

/// Why the entropy source gave no bytes.
#[derive(Clone, Copy, Debug, PartialEq, Eq, Structural)]
pub enum EntropyError {
    /// The kernel has no entropy call.
    Unavailable,
    /// The entropy source is not ready yet, and the call was not to wait.
    NotReady,
    /// The call failed with another error.
    Unexpected(Error),
}

/// What to do after one answer of the entropy call.
#[derive(Clone, Copy, Debug, PartialEq, Eq, Structural)]
pub enum Fill {
    /// Every byte is filled.
    Done,
    /// Call again, for the `len` bytes from index `offset` on.
    Call { offset: usize, len: usize },
    /// Give up.
    Failed(EntropyError),
}

impl OsRandom {
    /// The entropy source of the operating system.
    pub fn new() -> (r: OsRandom) {
        OsRandom {  }
    }

    /// The flag word of the entropy call.
    pub fn flags(block: bool) -> (f: usize)
        ensures
            f == if block { 0 } else { GRND_NONBLOCK },
    {
        if block {
            0
        } else {
            GRND_NONBLOCK
        }
    }

    /// What filling a buffer of `len` bytes starts with.
    pub open spec fn spec_begin(len: usize) -> Fill {
        if len == 0 {
            Fill::Done
        } else {
            Fill::Call { offset: 0, len }
        }
    }

    /// What filling a buffer of `len` bytes starts with: a call for all of
    /// it, or nothing where it is empty.
    pub fn begin(&self, len: usize) -> (f: Fill)
        ensures
            f == Self::spec_begin(len),
    {
        if len == 0 {
            Fill::Done
        } else {
            Fill::Call { offset: 0, len }
        }
    }

    /// What follows when the entropy call, asked for `len` bytes from index
    /// `offset` on, returned the word `ret`.
    pub open spec fn spec_answer(offset: usize, len: usize, ret: isize) -> Fill {
        if ret < 0 {
            if -ret == EINTR {
                Fill::Call { offset, len }
            } else if -ret == ENOSYS {
                Fill::Failed(EntropyError::Unavailable)
            } else if -ret == EAGAIN {
                Fill::Failed(EntropyError::NotReady)
            } else {
                Fill::Failed(EntropyError::Unexpected(Error::of((-ret) as usize)))
            }
        } else if ret >= len {
            Fill::Done
        } else {
            Fill::Call { offset: (offset + ret) as usize, len: (len - ret) as usize }
        }
    }

    /// Decide what follows one answer of the entropy call. The call was for
    /// `len` bytes from index `offset` of the buffer on, and returned `ret`.
    /// An interrupted call is made again; a missing call and a source that is
    /// not ready are failures of their own kind; any other error is handed
    /// on; a count of bytes moves the window on, until nothing is left.
    pub fn answer(&self, offset: usize, len: usize, ret: isize) -> (f: Fill)
        requires
            offset + len <= usize::MAX,
        ensures
            f == Self::spec_answer(offset, len, ret),
    {
        match Error::from_sysret(ret) {
            Err(e) => {
                proof {
                    Error::lemma_view(e);
                }
                if e.is(EINTR) {
                    Fill::Call { offset, len }
                } else if e.is(ENOSYS) {
                    Fill::Failed(EntropyError::Unavailable)
                } else if e.is(EAGAIN) {
                    Fill::Failed(EntropyError::NotReady)
                } else {
                    Fill::Failed(EntropyError::Unexpected(e))
                }
            },
            Ok(n) => {
                if n >= len {
                    Fill::Done
                } else {
                    Fill::Call { offset: offset + n, len: len - n }
                }
            },
        }
    }
}

/// Every answer that brings bytes brings the filling on: either every byte
/// is filled, or the call is made again for what is left, which is less than
/// before and ends where the window ended. An interrupted call is made again
/// for the same window.
pub proof fn lemma_fill_goes_on(offset: usize, len: usize, ret: isize, e: Error)
    requires
        offset + len <= usize::MAX,
        e@ == EINTR,
    ensures
        0 < ret ==> OsRandom::spec_answer(offset, len, ret) is Done || (
        OsRandom::spec_answer(offset, len, ret) matches Fill::Call { offset: o, len: l } && l < len
            && o + l == offset + len),
        ret == -e@ ==> OsRandom::spec_answer(offset, len, ret) == (Fill::Call { offset, len }),
{
}

} // verus!
