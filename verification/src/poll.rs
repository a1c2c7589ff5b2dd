//! I/O multiplexing

use vstd::prelude::*;
use crate::err::ERANGE;
use crate::err_::Error;
use crate::file::File;
use crate::time::{quotient, remainder, to_timespec, NS_PER_S};

verus! {

/// There is data to read.
pub const POLLIN: i16 = 0x1;

/// There is an exceptional condition on the file descriptor.
pub const POLLPRI: i16 = 0x2;

/// Writing is now possible.
pub const POLLOUT: i16 = 0x4;

/// An error has occurred.
pub const POLLERR: i16 = 0x8;

/// The other end has closed the connection.
pub const POLLHUP: i16 = 0x10;

/// All the bits that a set of events can hold.
pub const EVENT_MASK: i16 = 0x1f;

/// Which events to poll for, or which are ready.
#[derive(Clone, Copy, Debug, PartialEq, Eq, Structural, Hash)]
pub struct Event {
    bits: i16,
}

impl View for Event {
    type V = i16;

    /// The bits that are set.
    closed spec fn view(&self) -> i16 {
        self.bits
    }
}

impl Event {
    #[verifier::type_invariant]
    spec fn within_mask(self) -> bool {
        self.bits & !EVENT_MASK == 0
    }

    proof fn lemma_members_within_mask()
        by (bit_vector)
        ensures
            0i16 & !EVENT_MASK == 0,
            EVENT_MASK & !EVENT_MASK == 0,
            POLLIN & !EVENT_MASK == 0,
            POLLPRI & !EVENT_MASK == 0,
            POLLOUT & !EVENT_MASK == 0,
            POLLERR & !EVENT_MASK == 0,
            POLLHUP & !EVENT_MASK == 0,
    {
    }

    /// The value with bits `bits`.
    pub closed spec fn of(bits: i16) -> Event {
        Event { bits }
    }

    /// The bits of the value that `of` makes are the bits it was given.
    pub broadcast proof fn lemma_of(bits: i16)
        ensures
            (#[trigger] Event::of(bits))@ == bits,
    {
    }

    /// A value is the one that `of` makes of its bits.
    pub broadcast proof fn lemma_view(self)
        ensures
            #[trigger] Event::of(self@) == self,
    {
    }

    /// The value with no bit set.
    pub fn empty() -> (r: Event)
        ensures
            r@ == 0,
    {
        proof {
            Self::lemma_members_within_mask();
        }
        Event { bits: 0 }
    }

    /// The value with every bit set.
    pub fn all() -> (r: Event)
        ensures
            r@ == EVENT_MASK,
    {
        proof {
            Self::lemma_members_within_mask();
        }
        Event { bits: EVENT_MASK }
    }

    /// There is data to read.
    pub fn input() -> (r: Event)
        ensures
            r@ == POLLIN,
    {
        proof {
            Self::lemma_members_within_mask();
        }
        Event { bits: POLLIN }
    }

    /// There is an exceptional condition on the file descriptor.
    pub fn priority() -> (r: Event)
        ensures
            r@ == POLLPRI,
    {
        proof {
            Self::lemma_members_within_mask();
        }
        Event { bits: POLLPRI }
    }

    /// Writing is now possible.
    pub fn output() -> (r: Event)
        ensures
            r@ == POLLOUT,
    {
        proof {
            Self::lemma_members_within_mask();
        }
        Event { bits: POLLOUT }
    }

    /// An error has occurred.
    pub fn error() -> (r: Event)
        ensures
            r@ == POLLERR,
    {
        proof {
            Self::lemma_members_within_mask();
        }
        Event { bits: POLLERR }
    }

    /// The other end has closed the connection.
    pub fn hang_up() -> (r: Event)
        ensures
            r@ == POLLHUP,
    {
        proof {
            Self::lemma_members_within_mask();
        }
        Event { bits: POLLHUP }
    }

    /// The bits that are set.
    pub fn bits(self) -> (b: i16)
        ensures
            b == self@,
            b & !EVENT_MASK == 0,
    {
        proof {
            use_type_invariant(&self);
        }
        self.bits
    }

    /// The value with bits `bits`, unless one of them is not in the mask.
    pub fn from_bits(bits: i16) -> (r: Option<Event>)
        ensures
            r is Some <==> bits & !EVENT_MASK == 0,
            r matches Some(v) ==> v@ == bits,
    {
        if bits & !EVENT_MASK == 0 {
            Some(Event { bits })
        } else {
            None
        }
    }

    /// The value with those of `bits` that are in the mask.
    pub fn from_bits_truncate(bits: i16) -> (r: Event)
        ensures
            r@ == bits & EVENT_MASK,
    {
        assert((bits & EVENT_MASK) & !EVENT_MASK == 0) by (bit_vector);
        Event { bits: bits & EVENT_MASK }
    }

    /// Whether no bit is set.
    pub fn is_empty(self) -> (b: bool)
        ensures
            b == (self@ == 0),
    {
        self.bits == 0
    }

    /// Whether every bit of `other` is set.
    pub fn contains(self, other: Event) -> (b: bool)
        ensures
            b == (self@ & other@ == other@),
    {
        self.bits & other.bits == other.bits
    }

    /// The value with the bits of both.
    pub fn union(self, other: Event) -> (r: Event)
        ensures
            r@ == self@ | other@,
    {
        proof {
            use_type_invariant(&self);
            use_type_invariant(&other);
        }
        let a = self.bits;
        let b = other.bits;
        assert((a | b) & !EVENT_MASK == 0) by (bit_vector)
            requires
                a & !EVENT_MASK == 0,
                b & !EVENT_MASK == 0,
        ;
        Event { bits: a | b }
    }
}

impl core::ops::BitOr for Event {
    type Output = Event;

    fn bitor(self, other: Event) -> (r: Event) {
        self.union(other)
    }
}

impl vstd::std_specs::ops::BitOrSpecImpl for Event {
    open spec fn obeys_bitor_spec() -> bool {
        true
    }

    open spec fn bitor_req(self, other: Event) -> bool {
        true
    }

    open spec fn bitor_spec(self, other: Event) -> Event {
        Event::of(self@ | other@)
    }
}

/// Specify what to poll
#[derive(Debug, Clone, Copy)]
pub struct Poll {
    /// Which file descriptor to poll
    pub fd: i32,
    /// Which events to poll
    pub ev: Event,
    r: Event,
}

impl Poll {
    /// The events that are ready.
    pub closed spec fn spec_ready(self) -> Event {
        self.r
    }

    /// The file descriptor to poll.
    pub closed spec fn spec_fd(self) -> i32 {
        self.fd
    }

    /// The events to poll for.
    pub closed spec fn spec_ev(self) -> Event {
        self.ev
    }

    /// Ask to poll the file `f` for the events `ev`. No event is ready yet.
    pub fn new(f: &File, ev: Event) -> (p: Poll)
        ensures
            p.spec_fd() == f@ as i32,
            p.spec_ev() == ev,
            p.spec_ready()@ == 0,
    {
        Poll { fd: #[verifier::truncate] (f.fd() as i32), ev, r: Event::empty() }
    }

    /// Ask to poll the file `f` for the events `ev`, and take `ready` as the
    /// events that the kernel reported ready.
    pub fn answered(fd: i32, ev: Event, ready: Event) -> (p: Poll)
        ensures
            p.spec_fd() == fd,
            p.spec_ev() == ev,
            p.spec_ready() == ready,
    {
        Poll { fd, ev, r: ready }
    }

    /// The file descriptor to poll.
    pub fn fd(self) -> (fd: i32)
        ensures
            fd == self.spec_fd(),
    {
        self.fd
    }

    /// The events to poll for.
    pub fn ev(self) -> (ev: Event)
        ensures
            ev == self.spec_ev(),
    {
        self.ev
    }

    /// Return which events are ready on the file descriptor.
    pub fn ready(self) -> (r: Event)
        ensures
            r == self.spec_ready(),
    {
        self.r
    }
}

/// The time limit that a poll is handed, as seconds and nanoseconds: none
/// where `t` is `None`; for a span of `t` nanoseconds its two parts, or the
/// error `ERANGE` where its seconds are no 64-bit signed number.
pub fn poll_timeout(t: Option<i128>) -> (r: Result<Option<(i64, i64)>, Error>)
    ensures
        t is None ==> r == Ok::<Option<(i64, i64)>, Error>(None),
        t matches Some(ns) ==> {
            let s = quotient(ns as int, NS_PER_S as int);
            if i64::MIN <= s <= i64::MAX {
                r == Ok::<Option<(i64, i64)>, Error>(
                    Some((s as i64, remainder(ns as int, NS_PER_S as int) as i64)),
                )
            } else {
                r == Err::<Option<(i64, i64)>, Error>(Error::of(ERANGE))
            }
        },
{
    match t {
        None => Ok(None),
        Some(ns) => match to_timespec(ns) {
            Some(ts) => Ok(Some(ts)),
            None => Err(Error::known(ERANGE)),
        },
    }
}

} // verus!
