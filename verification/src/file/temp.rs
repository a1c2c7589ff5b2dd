//! Temporary names: the letters of a name, and how often to try.

use vstd::prelude::*;
use vstd::arithmetic::div_mod::lemma_div_denominator;
use rand::rngs::SmallRng;
use crate::err::EEXIST;
use crate::err_::Error;
use crate::file::flags::{
    shifted_permission, FileMode, FileModeSection, FilePermission, OpenFlags, OpenMode, O_CREAT,
    O_EXCL, O_RDWR,
};
use crate::file::open_at_words;
use crate::random::small_rng_next;
use crate::str::OsStr;

verus! {

/// Letters in the alphabet of temporary names: `A` to `Z`.
pub const NAME_BASE: u64 = 26;

/// How many names are tried before giving up.
pub const TRIES: usize = 0x100;

/// `26^i`.
pub open spec fn pow26(i: nat) -> int
    decreases i,
{
    if i == 0 {
        1
    } else {
        26 * pow26((i - 1) as nat)
    }
}

/// `26^i` is positive.
pub proof fn lemma_pow26_positive(i: nat)
    ensures
        pow26(i) > 0,
    decreases i,
{
    if i > 0 {
        lemma_pow26_positive((i - 1) as nat);
    }
}

/// The letter at index `i` of the name that number `n` gives: the base-26
/// digit of weight `26^i` of `n`, with `A` for zero.
pub open spec fn name_letter(n: u64, i: nat) -> u8 {
    (0x41 + (n as int / pow26(i)) % 26) as u8
}

/// The name of `len` letters that number `n` gives: the base-26 digits of
/// `n`, the least significant first.
pub open spec fn rand_name(n: u64, len: nat) -> Seq<u8> {
    Seq::new(len, |i: int| name_letter(n, i as nat))
}

/// `bs` with the name that `n` gives in place of its bytes from `start` up
/// to `end`.
pub open spec fn with_name(bs: Seq<u8>, start: int, end: int, n: u64) -> Seq<u8> {
    bs.subrange(0, start) + rand_name(n, (end - start) as nat) + bs.subrange(end, bs.len() as int)
}

/// Every byte of a name is an upper-case letter.
pub proof fn lemma_name_is_upper_case(n: u64, len: nat)
    ensures
        rand_name(n, len).len() == len,
        forall|i: int| 0 <= i < len ==> 0x41 <= #[trigger] rand_name(n, len)[i] <= 0x5a,
{
    assert forall|i: int| 0 <= i < len implies 0x41 <= #[trigger] rand_name(n, len)[i] <= 0x5a by {
        lemma_pow26_positive(i as nat);
    }
}

/// Write the name that `n` gives over the bytes of `bs` from `start` up to
/// `end`; the others stay.
pub fn fill_name(n: u64, bs: &mut Vec<u8>, start: usize, end: usize)
    requires
        start <= end <= old(bs).len(),
    ensures
        final(bs)@ == with_name(old(bs)@, start as int, end as int, n),
        final(bs).len() == old(bs).len(),
{
    let mut m: u64 = n;
    let mut i: usize = start;
    while i < end
        invariant
            start <= i <= end <= bs.len(),
            bs.len() == old(bs).len(),
            m as int == n as int / pow26((i - start) as nat),
            forall|j: int| 0 <= j < start ==> bs@[j] == old(bs)@[j],
            forall|j: int| i <= j < bs.len() ==> bs@[j] == old(bs)@[j],
            forall|j: int| start <= j < i ==> bs@[j] == name_letter(n, (j - start) as nat),
        decreases end - i,
    {
        let letter: u8 = (m % NAME_BASE + 0x41) as u8;
        bs.set(i, letter);
        proof {
            let k = (i - start) as nat;
            lemma_pow26_positive(k);
            lemma_div_denominator(n as int, pow26(k), 26);
            assert(pow26(k + 1) == pow26(k) * 26);
        }
        m = m / NAME_BASE;
        i = i + 1;
    }
    assert(bs@ =~= with_name(old(bs)@, start as int, end as int, n));
}

/// Draw a number from `rng` and write the name that it gives over the bytes
/// of `bs` from `start` up to `end`.
pub fn randname(rng: &mut SmallRng, bs: &mut Vec<u8>, start: usize, end: usize)
    requires
        start <= end <= old(bs).len(),
    ensures
        exists|n: u64| final(bs)@ == with_name(old(bs)@, start as int, end as int, n),
        final(bs).len() == old(bs).len(),
{
    let n = small_rng_next(rng);
    fill_name(n, bs, start, end);
}

/// The path `templ` with the name that `n` gives in place of its bytes from
/// `start` up to `end`.
pub fn name_in_template(templ: OsStr, start: usize, end: usize, n: u64) -> (path: OsStr)
    requires
        start <= end <= templ@.len(),
    ensures
        path@ == with_name(templ@, start as int, end as int, n),
{
    let ghost before = templ@;
    let mut bytes = templ.into_bytes_with_nul();
    proof {
        assert(bytes@.drop_last() == before) by {
            templ.lemma_with_nul();
            assert(before.push(0).drop_last() =~= before);
        }
    }
    fill_name(n, &mut bytes, start, end);
    assert(bytes@.drop_last() =~= with_name(before, start as int, end as int, n));
    OsStr::from_mut_bytes(bytes)
}

/// What to do after an attempt to create a file under a temporary name.
#[derive(Debug)]
pub enum Verdict<A> {
    /// The name was taken: try another one.
    Retry,
    /// Return this result.
    Return(Result<A, Error>),
}

/// The budget of temporary-name generation: counts the names that were
/// found taken.
#[derive(Clone, Copy, Debug, PartialEq, Eq, Structural)]
pub struct Mktemp {
    taken: usize,
}

impl View for Mktemp {
    type V = nat;

    /// How many names were found taken so far.
    closed spec fn view(&self) -> nat {
        self.taken as nat
    }
}

/// Whether `r` says that the name was taken.
pub open spec fn collided<A>(r: Result<A, Error>) -> bool {
    r matches Err(e) && e@ == EEXIST
}

/// What follows the result `r` of an attempt when `taken` names were found
/// taken before it.
pub open spec fn spec_settle<A>(taken: nat, r: Result<A, Error>) -> Verdict<A> {
    if collided(r) && taken + 1 < TRIES {
        Verdict::Retry
    } else {
        Verdict::Return(r)
    }
}

/// How many names were found taken once `r` is counted; the count stops at
/// `TRIES`.
pub open spec fn spec_taken<A>(taken: nat, r: Result<A, Error>) -> nat {
    if collided(r) && taken < TRIES {
        taken + 1
    } else {
        taken
    }
}

/// Of attempts that all find their name taken, exactly `TRIES` are made:
/// after each of the first `TRIES - 1` another name is tried, and the
/// collision of attempt number `TRIES` is returned. `taken` counts the
/// attempts before this one.
pub proof fn lemma_gives_up_at_last_try<A>(taken: nat, r: Result<A, Error>)
    requires
        collided(r),
        taken < TRIES,
    ensures
        spec_taken(taken, r) == taken + 1,
        taken + 1 < TRIES ==> spec_settle(taken, r) is Retry,
        taken + 1 == TRIES ==> spec_settle(taken, r) == Verdict::Return(r),
{
}

impl Mktemp {
    #[verifier::type_invariant]
    spec fn within_budget(self) -> bool {
        self.taken <= TRIES
    }

    /// A fresh budget: no name was tried yet.
    pub fn new() -> (m: Mktemp)
        ensures
            m@ == 0,
    {
        Mktemp { taken: 0 }
    }

    /// How many names were found taken so far.
    pub fn taken(&self) -> (n: usize)
        ensures
            n == self@,
            n <= TRIES,
    {
        proof {
            use_type_invariant(self);
        }
        self.taken
    }

    /// Judge the result `r` of an attempt to create a file under a fresh
    /// temporary name. A name that was taken is counted, and another one is
    /// tried while fewer than `TRIES` were; any other result, and the
    /// collision that uses up the budget, is returned as it is.
    pub fn settle<A>(&mut self, r: Result<A, Error>) -> (v: Verdict<A>)
        ensures
            v == spec_settle(old(self)@, r),
            final(self)@ == spec_taken(old(self)@, r),
    {
        proof {
            use_type_invariant(&*self);
        }
        let collision = match &r {
            Err(e) => e.is(EEXIST),
            Ok(_) => false,
        };
        if collision && self.taken < TRIES {
            self.taken = self.taken + 1;
            if self.taken < TRIES {
                return Verdict::Retry;
            }
        }
        Verdict::Return(r)
    }
}

/// The mode that a temporary file is created with: its owner may read and
/// write it.
pub const TEMP_FILE_MODE: u16 = 0o600;

/// The mode that a temporary directory is created with: its owner may read,
/// write and search it.
pub const TEMP_DIR_MODE: u16 = 0o700;

/// The flag word and the mode that a temporary file is opened with: for
/// reading and writing, with the flags `flags`, to be created and not to be
/// there yet, with a mode that lets its owner read and write it.
pub fn mktemp_words(flags: OpenFlags) -> (w: (usize, u16))
    ensures
        w == ((((O_RDWR | flags@) | O_EXCL) | O_CREAT) as usize, TEMP_FILE_MODE),
{
    let o_mode = OpenMode::rd_wr() | flags | OpenFlags::excl();
    let perm = FilePermission::read() | FilePermission::write();
    let f_mode = perm << FileModeSection::USR;
    proof {
        OpenMode::lemma_of(O_RDWR | flags@);
        OpenMode::lemma_of((O_RDWR | flags@) | O_EXCL);
        FilePermission::lemma_of(4u8 | 2u8);
        FileMode::lemma_of(shifted_permission(4u8 | 2u8, 6));
        assert(((4u8 | 2u8) as u16) << 6u32 == 0o600u16) by (bit_vector);
    }
    let w = open_at_words(o_mode, Some(f_mode));
    (w.0, f_mode.bits())
}

/// The mode that a temporary directory is created with.
pub fn mktemp_dir_mode() -> (m: FileMode)
    ensures
        m@ == TEMP_DIR_MODE,
{
    let perm = FilePermission::read() | FilePermission::write() | FilePermission::exec();
    proof {
        FilePermission::lemma_of(4u8 | 2u8);
        FilePermission::lemma_of((4u8 | 2u8) | 1u8);
        FileMode::lemma_of(shifted_permission((4u8 | 2u8) | 1u8, 6));
        assert((((4u8 | 2u8) | 1u8) as u16) << 6u32 == 0o700u16) by (bit_vector);
    }
    perm << FileModeSection::USR
}

} // verus!
