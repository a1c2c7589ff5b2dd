//! Information about a file.

use vstd::prelude::*;
use crate::file::flags::{FileMode, MODE_MASK};
use crate::time::{ns_of_s_ns, EpochTime};

verus! {

/// What the kernel reports of a file, as the numbers it reports.
#[derive(Debug, Clone, Copy)]
pub struct RawStat {
    /// ID of device containing file
    pub dev: u64,
    /// Inode number
    pub ino: u64,
    /// File type and mode
    pub mode: u32,
    /// Number of links
    pub nlink: u64,
    /// User ID of owner
    pub uid: u32,
    /// Group ID of owner
    pub gid: u32,
    /// Total size, in bytes
    pub size: i64,
    /// Block size for filesystem I/O
    pub blksize: i64,
    /// Number of allocated blocks
    pub blocks: i64,
    /// Time of last access: seconds
    pub atime: i64,
    /// Time of last access: nanoseconds
    pub atime_nsec: i64,
    /// Time of last modification: seconds
    pub mtime: i64,
    /// Time of last modification: nanoseconds
    pub mtime_nsec: i64,
    /// Time of last status change: seconds
    pub ctime: i64,
    /// Time of last status change: nanoseconds
    pub ctime_nsec: i64,
}

/// File information
#[derive(Debug, Clone, Copy, PartialEq, Eq, Hash)]
pub struct Stat {
    /// ID of device containing file
    pub dev: u64,
    /// Inode number
    pub ino: u64,
    /// File mode
    pub mode: FileMode,
    /// Number of links
    pub nlink: u64,
    /// User ID of owner
    pub uid: u32,
    /// Group ID of owner
    pub gid: u32,
    /// Total size, in bytes
    pub size: i64,
    /// Block size for filesystem I/O
    pub blksize: i64,
    /// Number of allocated blocks
    pub blocks: i64,
    /// Time of last access
    pub atime: EpochTime,
    /// Time of last modification
    pub mtime: EpochTime,
    /// Time of last status change
    pub ctime: EpochTime,
}

/// The mode bits of the word in which the kernel reports type and mode.
pub open spec fn mode_of_word(word: u32) -> u16 {
    (word & 0o7777) as u16
}

proof fn lemma_mode_of_word(word: u32)
    by (bit_vector)
    ensures
        ((word & 0o7777) as u16) & MODE_MASK == (word & 0o7777) as u16,
{
}

impl Stat {
    /// The file information that the kernel's numbers `st` stand for: the
    /// mode without the file type, each time as nanoseconds since the epoch,
    /// the rest as it is.
    pub fn from(st: RawStat) -> (s: Stat)
        ensures
            s.dev == st.dev,
            s.ino == st.ino,
            s.mode@ == mode_of_word(st.mode),
            s.nlink == st.nlink,
            s.uid == st.uid,
            s.gid == st.gid,
            s.size == st.size,
            s.blksize == st.blksize,
            s.blocks == st.blocks,
            s.atime@ == ns_of_s_ns(st.atime as int, st.atime_nsec as int),
            s.mtime@ == ns_of_s_ns(st.mtime as int, st.mtime_nsec as int),
            s.ctime@ == ns_of_s_ns(st.ctime as int, st.ctime_nsec as int),
    {
        proof {
            lemma_mode_of_word(st.mode);
        }
        Stat {
            dev: st.dev,
            ino: st.ino,
            mode: FileMode::from_bits_truncate((st.mode & 0o7777) as u16),
            nlink: st.nlink,
            uid: st.uid,
            gid: st.gid,
            size: st.size,
            blksize: st.blksize,
            blocks: st.blocks,
            atime: EpochTime::from_s_ns(st.atime, st.atime_nsec),
            mtime: EpochTime::from_s_ns(st.mtime, st.mtime_nsec),
            ctime: EpochTime::from_s_ns(st.ctime, st.ctime_nsec),
        }
    }
}

} // verus!
