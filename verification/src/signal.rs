//! Signals

use vstd::prelude::*;
use crate::err_::Error;
use crate::file::done;

verus! {

/// How a set of signals changes the signal mask.
#[derive(Clone, Copy, Debug, PartialEq, Eq, Structural, Hash)]
pub enum How {
    /// Block the signals of the set too.
    Block,
    /// Unblock the signals of the set.
    Unblock,
    /// Block the signals of the set and no others.
    SetMask,
}

impl How {
    /// The word that the kernel takes for the change.
    pub open spec fn spec_word(self) -> i32 {
        match self {
            How::Block => 0,
            How::Unblock => 1,
            How::SetMask => 2,
        }
    }

    /// The word that the kernel takes for the change.
    pub fn word(self) -> (w: i32)
        ensures
            w == self.spec_word(),
    {
        match self {
            How::Block => 0,
            How::Unblock => 1,
            How::SetMask => 2,
        }
    }
}

/// What became of sending a signal: the error of a negative word `ret`.
pub fn send(ret: isize) -> (r: Result<(), Error>)
    ensures
        ret >= 0 ==> r == Ok::<(), Error>(()),
        ret < 0 ==> r == Err::<(), Error>(Error::of((-ret) as usize)),
{
    done(ret)
}

/// What became of changing the signal mask: the call returns zero, or the
/// number of an error, which is taken as a machine word.
pub fn masked(ret: i32) -> (r: Result<(), Error>)
    ensures
        ret == 0 ==> r == Ok::<(), Error>(()),
        ret != 0 ==> r == Err::<(), Error>(Error::of(ret as usize)),
{
    if ret == 0 {
        Ok(())
    } else {
        assert(ret as usize != 0) by (bit_vector)
            requires
                ret != 0,
        ;
        Err(Error::known(#[verifier::truncate] (ret as usize)))
    }
}

} // verus!
