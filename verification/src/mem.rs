//! Memory mappings

use vstd::prelude::*;
use crate::err_::Error;
use crate::file::flags::{FilePermission, PERM_EXEC, PERM_READ, PERM_WRITE};
use crate::util::try_to_usize;

verus! {

/// Pages may be read.
pub const PROT_READ: usize = 1;

/// Pages may be written.
pub const PROT_WRITE: usize = 2;

/// Pages may be executed.
pub const PROT_EXEC: usize = 4;

/// The greatest word that a mapping can start at: every greater word stands
/// for an error.
pub const MAX_MAPPED: usize = usize::MAX - 0xfff;

/// Which part of a file to map
#[derive(Debug, Clone, Copy, PartialEq, Eq, Structural, Hash)]
pub struct Segment {
    /// Where the part starts, in bytes from the start of the file
    pub offset: u64,
    /// How many bytes the part has
    pub length: usize,
}

/// Whether permission `perm` has the bit `bit`.
pub open spec fn permits(perm: FilePermission, bit: u8) -> bool {
    perm@ & bit == bit
}

/// The protection word of a mapping that gives permission `perm`.
pub open spec fn spec_prot(perm: FilePermission) -> usize {
    (if permits(perm, PERM_READ) { PROT_READ } else { 0 })
    | (if permits(perm, PERM_WRITE) { PROT_WRITE } else { 0 })
    | (if permits(perm, PERM_EXEC) { PROT_EXEC } else { 0 })
}

/// The protection word of a mapping that gives permission `perm`: a bit for
/// each of reading, writing and executing that `perm` holds.
pub fn prot(perm: FilePermission) -> (word: usize)
    ensures
        word == spec_prot(perm),
{
    let r: usize = if perm.contains(FilePermission::read()) { PROT_READ } else { 0 };
    let w: usize = if perm.contains(FilePermission::write()) { PROT_WRITE } else { 0 };
    let x: usize = if perm.contains(FilePermission::exec()) { PROT_EXEC } else { 0 };
    r | w | x
}

/// The part of a file to map: `seg`, or the whole file of `size` bytes where
/// none is given. A size that is no machine word is the error `EOVERFLOW`;
/// so is a negative one.
pub fn file_segment(seg: Option<Segment>, size: i64) -> (r: Result<Segment, Error>)
    ensures
        seg matches Some(s) ==> r == Ok::<Segment, Error>(s),
        seg is None && 0 <= size <= usize::MAX ==> r == Ok::<Segment, Error>(
            Segment { offset: 0, length: size as usize },
        ),
        seg is None && !(0 <= size <= usize::MAX) ==> r == Err::<Segment, Error>(
            Error::of(crate::err::EOVERFLOW),
        ),
{
    match seg {
        Some(s) => Ok(s),
        None => {
            if size < 0 {
                Err(Error::known(crate::err::EOVERFLOW))
            } else {
                match try_to_usize(size as u64) {
                    Ok(length) => Ok(Segment { offset: 0, length }),
                    Err(e) => Err(e),
                }
            }
        },
    }
}

/// What a request for a mapping gave: the address that the word `ret` is,
/// or, where the word is among the last 4095 ones, the error whose number is
/// its negation.
pub fn mapped(ret: usize) -> (r: Result<usize, Error>)
    ensures
        ret <= MAX_MAPPED ==> r == Ok::<usize, Error>(ret),
        ret > MAX_MAPPED ==> r == Err::<usize, Error>(Error::of((usize::MAX - ret + 1) as usize)),
{
    if ret > MAX_MAPPED {
        Err(Error::known(usize::MAX - ret + 1))
    } else {
        Ok(ret)
    }
}

} // verus!
