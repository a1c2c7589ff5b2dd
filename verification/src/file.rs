//! File and filesystem operations.
//!
//! Many operations which take a path also take a directory `opt_dir`. If the
//! path is relative, it is interpreted relative to `opt_dir` if it is `Some`,
//! else the current working directory. Such operations are marked with an
//! `_at` suffix. The kernel calls themselves are made by the caller: this
//! module computes the words that are handed to them, and judges what they
//! return.

use vstd::prelude::*;
use crate::err_::Error;
use crate::util::try_to_usize;
use self::flags::AT_SYMLINK_FOLLOW;

pub mod atomic;
pub mod flags;
pub mod model;
pub mod stat;
pub mod temp;

pub use self::atomic::{AtomicWrite, Event, Phase, State};
pub use self::flags::{AtFlags, FileMode, FileModeSection, FilePermission, OpenFlags, OpenMode};
pub use self::stat::{RawStat, Stat};
pub use self::temp::{Mktemp, Verdict};

verus! {

/// In place of a directory's descriptor: resolve the path relative to the
/// current working directory.
pub const AT_FDCWD: isize = -100;

/// Do not follow a symbolic link at the end of the path.
pub const AT_SYMLINK_NOFOLLOW: usize = 0x100;

/// Where the path is empty, operate on the directory descriptor itself.
pub const AT_EMPTY_PATH: usize = 0x1000;

/// File descriptor.
#[derive(Debug)]
pub struct File {
    fd: isize,
}

impl View for File {
    type V = isize;

    /// The descriptor's number.
    closed spec fn view(&self) -> isize {
        self.fd
    }
}

impl File {
    /// Return the file descriptor of the `File`.
    pub fn fd(&self) -> (fd: isize)
        ensures
            fd == self@,
    {
        self.fd
    }

    /// Make a `File` of a file descriptor. `probe` is what the kernel
    /// returned when asked for the descriptor's flags: the descriptor is
    /// valid unless that was an error.
    pub fn new(fd: isize, probe: isize) -> (f: Option<File>)
        ensures
            f is Some <==> probe >= 0,
            f matches Some(file) ==> file@ == fd,
    {
        if probe >= 0 {
            Some(File { fd })
        } else {
            None
        }
    }

    /// Make a `File` of a file descriptor, which is not checked.
    pub fn new_unchecked(fd: isize) -> (f: File)
        ensures
            f@ == fd,
    {
        File { fd }
    }

    /// The length that a truncation is handed: `length` as a machine word,
    /// or `EOVERFLOW` where it is none.
    pub fn truncate(&self, length: u64) -> (r: Result<usize, Error>)
        ensures
            length <= usize::MAX ==> r == Ok::<usize, Error>(length as usize),
            length > usize::MAX ==> r == Err::<usize, Error>(Error::of(crate::err::EOVERFLOW)),
    {
        try_to_usize(length)
    }
}

/// Specify what to do if there is already a file at `path`.
#[derive(Debug, Clone, Copy, PartialEq, Eq, Structural, Hash)]
pub enum Clobber {
    /// Abort the operation.
    NoClobber,
    /// Clobber the extant file and its permissions.
    Clobber,
    /// Clobber the extant file, but keep its permissions.
    ClobberSavingPerms,
}

/// The descriptor that a call with a path is handed for its directory.
pub open spec fn spec_from_opt_dir(opt_dir: Option<&File>) -> isize {
    match opt_dir {
        None => AT_FDCWD,
        Some(dir) => dir@,
    }
}

/// The descriptor that a call with a path is handed for its directory: that
/// of `opt_dir`, or the word that stands for the current working directory.
pub fn from_opt_dir(opt_dir: Option<&File>) -> (fd: isize)
    ensures
        fd == spec_from_opt_dir(opt_dir),
{
    match opt_dir {
        None => AT_FDCWD,
        Some(dir) => dir.fd,
    }
}

/// Whether `at_flags` asks to follow symbolic links.
pub open spec fn follows(at_flags: AtFlags) -> bool {
    at_flags@ & AT_SYMLINK_FOLLOW == AT_SYMLINK_FOLLOW
}

/// What became of a system call that returns nothing but its success: the
/// error of a negative word `m`.
pub fn done(m: isize) -> (r: Result<(), Error>)
    ensures
        m >= 0 ==> r == Ok::<(), Error>(()),
        m < 0 ==> r == Err::<(), Error>(Error::of((-m) as usize)),
{
    match Error::from_sysret(m) {
        Ok(_) => Ok(()),
        Err(e) => Err(e),
    }
}

/// The flag word and the mode that opening a file is handed: with a mode,
/// the file is created if it is not there.
pub fn open_at_words(o_mode: OpenMode, f_mode: Option<FileMode>) -> (w: (usize, Option<u16>))
    ensures
        f_mode is None ==> w == (o_mode@, None::<u16>),
        f_mode matches Some(m) ==> w == (o_mode@ | flags::O_CREAT, Some(m@)),
{
    match f_mode {
        None => (o_mode.bits(), None),
        Some(m) => (o_mode.bits() | flags::O_CREAT, Some(m.bits())),
    }
}

/// The file that an open gave: the descriptor that the word `m` is, or the
/// error of a negative word.
pub fn opened(m: isize) -> (r: Result<File, Error>)
    ensures
        m >= 0 ==> r is Ok && r->Ok_0@ == m,
        m < 0 ==> r == Err::<File, Error>(Error::of((-m) as usize)),
{
    match Error::from_sysret(m) {
        Ok(fd) => Ok(File { fd: fd as isize }),
        Err(e) => Err(e),
    }
}

/// The flag word that linking a file is handed.
pub fn link_at_flags(at_flags: AtFlags) -> (w: usize)
    ensures
        w == (if follows(at_flags) { AT_SYMLINK_FOLLOW } else { 0 }) | AT_EMPTY_PATH,
{
    (if at_flags.contains(AtFlags::follow()) {
        AT_SYMLINK_FOLLOW
    } else {
        0
    }) | AT_EMPTY_PATH
}

/// The flag word that changing the mode of the file at a path is handed.
pub fn chmod_at_flags(at_flags: AtFlags) -> (w: usize)
    ensures
        w == if follows(at_flags) { 0 } else { AT_SYMLINK_NOFOLLOW },
{
    if at_flags.contains(AtFlags::follow()) {
        0
    } else {
        AT_SYMLINK_NOFOLLOW
    }
}

/// The flag word that asking for information about the file at a path is
/// handed; executing the file at a path is handed the same.
pub fn stat_at_flags(at_flags: AtFlags) -> (w: usize)
    ensures
        w == (if follows(at_flags) { 0 } else { AT_SYMLINK_NOFOLLOW }) | AT_EMPTY_PATH,
{
    (if at_flags.contains(AtFlags::follow()) {
        0
    } else {
        AT_SYMLINK_NOFOLLOW
    }) | AT_EMPTY_PATH
}

} // verus!
