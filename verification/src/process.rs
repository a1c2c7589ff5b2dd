//! Process operations

use vstd::prelude::*;
use crate::err::EWOULDBLOCK;
use crate::err_::Error;

verus! {

/// The number of a process, or of a group of processes.
pub type Id = u32;

/// Wait for any child.
pub const P_ALL: u32 = 0;

/// Wait for the child with the given process ID.
pub const P_PID: u32 = 1;

/// Wait for any child in the given process group.
pub const P_PGID: u32 = 2;

/// Specify which child to wait for
#[derive(Clone, Copy, Debug, PartialEq, Eq, Hash)]
pub enum WaitSpec {
    /// Wait for the given process
    Pid(Id),
    /// Wait for any process in the given group
    Gid(Id),
    /// Wait for any process
    All,
}

impl WaitSpec {
    /// The kind of ID and the ID that a wait is handed.
    pub open spec fn spec_to_wait_args(self) -> (u32, Id) {
        match self {
            WaitSpec::Pid(pid) => (P_PID, pid),
            WaitSpec::Gid(gid) => (P_PGID, gid),
            WaitSpec::All => (P_ALL, 0),
        }
    }

    /// The kind of ID and the ID that a wait is handed; to wait for any
    /// process the ID does not matter, and is zero.
    pub fn to_wait_args(self) -> (args: (u32, Id))
        ensures
            args == self.spec_to_wait_args(),
    {
        match self {
            WaitSpec::Pid(pid) => (P_PID, pid),
            WaitSpec::Gid(gid) => (P_PGID, gid),
            WaitSpec::All => (P_ALL, 0),
        }
    }

    /// What a wait gave. `ret` is the word that the call returned; `si_pid`,
    /// `si_code` and `si_status` are what it wrote of the child, where
    /// `si_pid` was zero before the call.
    ///
    /// The error of a negative word is returned. Where no child was written,
    /// none has changed state yet, and the error is `EWOULDBLOCK`.
    pub fn wait(self, ret: isize, si_pid: i32, si_code: i32, si_status: i32) -> (r: Result<
        WaitInfo,
        Error,
    >)
        ensures
            ret < 0 ==> r == Err::<WaitInfo, Error>(Error::of((-ret) as usize)),
            ret >= 0 && si_pid == 0 ==> r == Err::<WaitInfo, Error>(Error::of(EWOULDBLOCK)),
            ret >= 0 && si_pid != 0 ==> r == Ok::<WaitInfo, Error>(
                WaitInfo::spec_from_c(si_pid, si_code, si_status),
            ),
    {
        match Error::from_sysret(ret) {
            Err(e) => Err(e),
            Ok(_) => {
                if si_pid == 0 {
                    Err(Error::known(EWOULDBLOCK))
                } else {
                    Ok(WaitInfo::from_c(si_pid, si_code, si_status))
                }
            },
        }
    }
}

/// Wait for children that have terminated.
pub const WEXITED: usize = 0x4;

/// Wait for children that a signal has stopped.
pub const WSTOPPED: usize = 0x2;

/// Wait for stopped children that a signal has resumed.
pub const WCONTINUED: usize = 0x8;

/// Return immediately if no child has changed state yet.
pub const WNOHANG: usize = 0x1;

/// Leave the child waitable, so that a later wait gives its state again.
pub const WNOWAIT: usize = 0x1000000;

/// All the bits that the flags of a wait can hold.
pub const WAIT_FLAGS_MASK: usize = 0x100000f;

/// Which state changes of a child to wait for, and how.
#[derive(Clone, Copy, Debug, PartialEq, Eq, Structural, Hash)]
pub struct WaitFlags {
    bits: usize,
}

impl View for WaitFlags {
    type V = usize;

    /// The bits that are set.
    closed spec fn view(&self) -> usize {
        self.bits
    }
}

impl WaitFlags {
    #[verifier::type_invariant]
    spec fn within_mask(self) -> bool {
        self.bits & !WAIT_FLAGS_MASK == 0
    }

    proof fn lemma_members_within_mask()
        by (bit_vector)
        ensures
            0usize & !WAIT_FLAGS_MASK == 0,
            WAIT_FLAGS_MASK & !WAIT_FLAGS_MASK == 0,
            WEXITED & !WAIT_FLAGS_MASK == 0,
            WSTOPPED & !WAIT_FLAGS_MASK == 0,
            WCONTINUED & !WAIT_FLAGS_MASK == 0,
            WNOHANG & !WAIT_FLAGS_MASK == 0,
            WNOWAIT & !WAIT_FLAGS_MASK == 0,
    {
    }

    /// The value with bits `bits`.
    pub closed spec fn of(bits: usize) -> WaitFlags {
        WaitFlags { bits }
    }

    /// The bits of the value that `of` makes are the bits it was given.
    pub broadcast proof fn lemma_of(bits: usize)
        ensures
            (#[trigger] WaitFlags::of(bits))@ == bits,
    {
    }

    /// A value is the one that `of` makes of its bits.
    pub broadcast proof fn lemma_view(self)
        ensures
            #[trigger] WaitFlags::of(self@) == self,
    {
    }

    /// The value with no bit set.
    pub fn empty() -> (r: WaitFlags)
        ensures
            r@ == 0,
    {
        proof {
            Self::lemma_members_within_mask();
        }
        WaitFlags { bits: 0 }
    }

    /// The value with every bit set.
    pub fn all() -> (r: WaitFlags)
        ensures
            r@ == WAIT_FLAGS_MASK,
    {
        proof {
            Self::lemma_members_within_mask();
        }
        WaitFlags { bits: WAIT_FLAGS_MASK }
    }

    /// Wait for children that have terminated.
    pub fn exit() -> (r: WaitFlags)
        ensures
            r@ == WEXITED,
    {
        proof {
            Self::lemma_members_within_mask();
        }
        WaitFlags { bits: WEXITED }
    }

    /// Wait for children that a signal has stopped.
    pub fn stop() -> (r: WaitFlags)
        ensures
            r@ == WSTOPPED,
    {
        proof {
            Self::lemma_members_within_mask();
        }
        WaitFlags { bits: WSTOPPED }
    }

    /// Wait for stopped children that a signal has resumed.
    pub fn cont() -> (r: WaitFlags)
        ensures
            r@ == WCONTINUED,
    {
        proof {
            Self::lemma_members_within_mask();
        }
        WaitFlags { bits: WCONTINUED }
    }

    /// Return immediately if no child has changed state yet.
    pub fn no_hang() -> (r: WaitFlags)
        ensures
            r@ == WNOHANG,
    {
        proof {
            Self::lemma_members_within_mask();
        }
        WaitFlags { bits: WNOHANG }
    }

    /// Leave the child waitable, so that a later wait gives its state again.
    pub fn no_wait() -> (r: WaitFlags)
        ensures
            r@ == WNOWAIT,
    {
        proof {
            Self::lemma_members_within_mask();
        }
        WaitFlags { bits: WNOWAIT }
    }

    /// The bits that are set.
    pub fn bits(self) -> (b: usize)
        ensures
            b == self@,
            b & !WAIT_FLAGS_MASK == 0,
    {
        proof {
            use_type_invariant(&self);
        }
        self.bits
    }

    /// The value with bits `bits`, unless one of them is not in the mask.
    pub fn from_bits(bits: usize) -> (r: Option<WaitFlags>)
        ensures
            r is Some <==> bits & !WAIT_FLAGS_MASK == 0,
            r matches Some(v) ==> v@ == bits,
    {
        if bits & !WAIT_FLAGS_MASK == 0 {
            Some(WaitFlags { bits })
        } else {
            None
        }
    }

    /// The value with those of `bits` that are in the mask.
    pub fn from_bits_truncate(bits: usize) -> (r: WaitFlags)
        ensures
            r@ == bits & WAIT_FLAGS_MASK,
    {
        assert((bits & WAIT_FLAGS_MASK) & !WAIT_FLAGS_MASK == 0) by (bit_vector);
        WaitFlags { bits: bits & WAIT_FLAGS_MASK }
    }

    /// Whether no bit is set.
    pub fn is_empty(self) -> (b: bool)
        ensures
            b == (self@ == 0),
    {
        self.bits == 0
    }

    /// Whether every bit of `other` is set.
    pub fn contains(self, other: WaitFlags) -> (b: bool)
        ensures
            b == (self@ & other@ == other@),
    {
        self.bits & other.bits == other.bits
    }

    /// The value with the bits of both.
    pub fn union(self, other: WaitFlags) -> (r: WaitFlags)
        ensures
            r@ == self@ | other@,
    {
        proof {
            use_type_invariant(&self);
            use_type_invariant(&other);
        }
        let a = self.bits;
        let b = other.bits;
        assert((a | b) & !WAIT_FLAGS_MASK == 0) by (bit_vector)
            requires
                a & !WAIT_FLAGS_MASK == 0,
                b & !WAIT_FLAGS_MASK == 0,
        ;
        WaitFlags { bits: a | b }
    }
}

impl core::ops::BitOr for WaitFlags {
    type Output = WaitFlags;

    fn bitor(self, other: WaitFlags) -> (r: WaitFlags) {
        self.union(other)
    }
}

impl vstd::std_specs::ops::BitOrSpecImpl for WaitFlags {
    open spec fn obeys_bitor_spec() -> bool {
        true
    }

    open spec fn bitor_req(self, other: WaitFlags) -> bool {
        true
    }

    open spec fn bitor_spec(self, other: WaitFlags) -> WaitFlags {
        WaitFlags::of(self@ | other@)
    }
}

/// Notice of process termination
#[derive(Clone, Copy, Debug, PartialEq, Eq, Hash)]
pub struct WaitInfo {
    /// ID of terminated process
    pub pid: Id,
    /// Cause of process termination
    pub code: WaitCode,
    /// Exit status, or number of the signal
    pub status: isize,
}

impl WaitInfo {
    /// The notice that the kernel's numbers stand for.
    pub open spec fn spec_from_c(si_pid: i32, si_code: i32, si_status: i32) -> WaitInfo {
        WaitInfo { pid: si_pid as u32, code: WaitCode(si_code), status: si_status as isize }
    }

    /// The notice that the kernel's numbers stand for: the process ID as an
    /// unsigned number, the cause and the status as they are.
    pub fn from_c(si_pid: i32, si_code: i32, si_status: i32) -> (w: WaitInfo)
        ensures
            w == Self::spec_from_c(si_pid, si_code, si_status),
    {
        WaitInfo {
            pid: #[verifier::truncate] (si_pid as u32),
            code: WaitCode(si_code),
            status: si_status as isize,
        }
    }
}

/// Cause of process termination
#[derive(Clone, Copy, Debug, PartialEq, Eq, Structural, Hash)]
pub struct WaitCode(pub i32);

/// The child has exited.
pub const CLD_EXITED: i32 = 1;

/// The child was killed.
pub const CLD_KILLED: i32 = 2;

/// The child was killed, and has dumped core.
pub const CLD_DUMPED: i32 = 3;

/// The traced child has trapped.
pub const CLD_TRAPPED: i32 = 4;

/// The child has stopped.
pub const CLD_STOPPED: i32 = 5;

/// The stopped child has continued.
pub const CLD_CONTINUED: i32 = 6;

/// The process ID that a fork, or a question for a process ID, gave: the
/// word `ret` as an ID, or the error of a negative word.
pub fn forked(ret: isize) -> (r: Result<Id, Error>)
    ensures
        ret < 0 ==> r == Err::<Id, Error>(Error::of((-ret) as usize)),
        ret >= 0 ==> r == Ok::<Id, Error>(ret as usize as u32),
{
    match Error::from_sysret(ret) {
        Err(e) => Err(e),
        Ok(pid) => Ok(#[verifier::truncate] (pid as u32)),
    }
}

} // verus!
