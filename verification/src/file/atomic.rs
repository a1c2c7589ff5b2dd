//! Atomic replacement of a file: the new contents are written to a
//! temporary sibling, which takes the place of the target in one step.
//!
//! The kernel calls are made by the caller. `AtomicWrite` says which call is
//! due, and is told what each call returned.

use vstd::prelude::*;
use rand::rngs::SmallRng;
use crate::err::{EEXIST, EIO, ENOENT};
use crate::err_::Error;
use crate::file::flags::{FileMode, OpenFlags, O_CREAT, O_EXCL, O_RDWR};
use crate::file::temp::{
    collided, fill_name, mktemp_words, rand_name, spec_settle, spec_taken, Verdict, TRIES,
};
use crate::file::Clobber;
use crate::random::{small_rng_from_seed, small_rng_next};
use crate::str::OsStr;

verus! {

/// Letters in the name of the temporary file.
pub const TEMP_NAME_LEN: usize = 12;

/// The mode that the temporary file is created with: its owner may read and
/// write it.
pub const TEMP_MODE: u16 = 0o600;

/// The flag word that the temporary file is opened with: for reading and
/// writing, to be created, and not to be there yet.
pub const TEMP_OPEN_WORD: usize = 0o302;

/// The call that is due.
#[derive(Clone, Copy, Debug)]
pub enum Phase {
    /// Create and open, exclusively, a file under the temporary name.
    Create,
    /// Ask for information about the target, not following a symbolic link.
    Stat,
    /// Change the mode of the temporary file to this one.
    Chmod(FileMode),
    /// Let the writer fill the temporary file.
    Populate,
    /// Link the temporary name to the target path.
    Link,
    /// Rename the temporary path onto the target path.
    Rename,
    /// Unlink the temporary name, whatever becomes of that; this is the
    /// result that is returned then.
    Unlink(Result<(), Error>),
    /// No call is due: return this result.
    Done(Result<(), Error>),
}

/// What a call returned.
#[derive(Clone, Copy, Debug)]
pub enum Event {
    /// The temporary file was created, or not.
    Created(Result<(), Error>),
    /// The target has this mode, or there is no information about it.
    Statted(Result<FileMode, Error>),
    /// The mode of the temporary file was changed, or not.
    Chmodded(Result<(), Error>),
    /// The writer has finished, or failed.
    Populated(Result<(), Error>),
    /// The target path was linked, or not.
    Linked(Result<(), Error>),
    /// The temporary path was renamed, or not.
    Renamed(Result<(), Error>),
    /// The call to unlink the temporary name has returned.
    Unlinked,
}

/// The state of an atomic replacement.
#[derive(Clone, Copy, Debug)]
pub struct State {
    /// What to do if there is already a file at the target path.
    pub clobber: Clobber,
    /// The mode that was asked for.
    pub mode: FileMode,
    /// The call that is due.
    pub phase: Phase,
    /// How many temporary names were found taken.
    pub taken: usize,
    /// The number that gives the temporary name.
    pub draw: u64,
}

/// The name of the temporary file in state `c`.
pub open spec fn temp_name(c: State) -> Seq<u8> {
    rand_name(c.draw, TEMP_NAME_LEN as nat)
}

/// The state in which a replacement starts: the first temporary name, which
/// the number `n` gives, is to be created.
pub open spec fn spec_first(clobber: Clobber, mode: FileMode, n: u64) -> State {
    State { clobber, mode, phase: Phase::Create, taken: 0, draw: n }
}

/// The call by which the temporary file takes the place of the target.
pub open spec fn spec_commit(clobber: Clobber) -> Phase {
    match clobber {
        Clobber::NoClobber => Phase::Link,
        Clobber::Clobber => Phase::Rename,
        Clobber::ClobberSavingPerms => Phase::Rename,
    }
}

/// The call that follows the creation of the temporary file.
pub open spec fn spec_after_create(clobber: Clobber, mode: FileMode) -> Phase {
    match clobber {
        Clobber::NoClobber => Phase::Chmod(mode),
        Clobber::Clobber => Phase::Chmod(mode),
        Clobber::ClobberSavingPerms => Phase::Stat,
    }
}

/// The call by which the temporary file takes the place of the target: a
/// link where the target must not be there, a rename where it may.
pub fn commit(clobber: Clobber) -> (p: Phase)
    ensures
        p == spec_commit(clobber),
{
    match clobber {
        Clobber::NoClobber => Phase::Link,
        Clobber::Clobber => Phase::Rename,
        Clobber::ClobberSavingPerms => Phase::Rename,
    }
}

/// The call that follows the creation of the temporary file: to give it the
/// mode `mode` that was asked for, or first to ask for the mode of the target
/// where that is to be kept.
pub fn after_create(clobber: Clobber, mode: FileMode) -> (p: Phase)
    ensures
        p == spec_after_create(clobber, mode),
{
    match clobber {
        Clobber::NoClobber => Phase::Chmod(mode),
        Clobber::Clobber => Phase::Chmod(mode),
        Clobber::ClobberSavingPerms => Phase::Stat,
    }
}

/// The state that follows `c` when the call that was due returned `ev`; `n`
/// gives the next temporary name where one is needed. An event that does not
/// answer the call that is due changes nothing.
pub open spec fn spec_step(c: State, ev: Event, n: u64) -> State {
    match (c.phase, ev) {
        (Phase::Create, Event::Created(Ok(_))) => State {
            phase: spec_after_create(c.clobber, c.mode),
            ..c
        },
        (Phase::Create, Event::Created(Err(e))) => if e@ == EEXIST && c.taken < TRIES {
            if c.taken + 1 < TRIES {
                State { taken: (c.taken + 1) as usize, draw: n, ..c }
            } else {
                State { taken: (c.taken + 1) as usize, phase: Phase::Done(Err(e)), ..c }
            }
        } else {
            State { phase: Phase::Done(Err(e)), ..c }
        },
        (Phase::Stat, Event::Statted(Ok(m))) => State { phase: Phase::Chmod(m), ..c },
        (Phase::Stat, Event::Statted(Err(e))) => if e@ == ENOENT {
            State { phase: Phase::Chmod(c.mode), ..c }
        } else {
            State { phase: Phase::Unlink(Err(e)), ..c }
        },
        (Phase::Chmod(_), Event::Chmodded(Ok(_))) => State { phase: Phase::Populate, ..c },
        (Phase::Chmod(_), Event::Chmodded(Err(e))) => State { phase: Phase::Unlink(Err(e)), ..c },
        (Phase::Populate, Event::Populated(Ok(_))) => State { phase: spec_commit(c.clobber), ..c },
        (Phase::Populate, Event::Populated(Err(e))) => State { phase: Phase::Unlink(Err(e)), ..c },
        (Phase::Link, Event::Linked(r)) => State { phase: Phase::Unlink(r), ..c },
        (Phase::Rename, Event::Renamed(Ok(_))) => State { phase: Phase::Done(Ok(())), ..c },
        (Phase::Rename, Event::Renamed(Err(e))) => State { phase: Phase::Unlink(Err(e)), ..c },
        (Phase::Unlink(r), Event::Unlinked) => State { phase: Phase::Done(r), ..c },
        _ => c,
    }
}

/// Whether a fresh temporary name is drawn when the call that was due in
/// state `c` returned `ev`.
pub open spec fn spec_draws(c: State, ev: Event) -> bool {
    &&& c.phase is Create
    &&& c.taken + 1 < TRIES
    &&& ev matches Event::Created(r)
    &&& collided(r)
}

/// Whether a fresh temporary name is drawn when the call that was due in
/// state `c` returned `ev`.
pub fn draws(c: &State, ev: &Event) -> (b: bool)
    ensures
        b == spec_draws(*c, *ev),
{
    match (c.phase, ev) {
        (Phase::Create, Event::Created(Err(e))) => e.is(EEXIST) && c.taken < TRIES - 1,
        _ => false,
    }
}

/// The state that follows `c` when the call that was due returned `ev`; `n`
/// gives the next temporary name where one is needed.
pub fn step_with(c: State, ev: Event, n: u64) -> (next: State)
    ensures
        next == spec_step(c, ev, n),
        !spec_draws(c, ev) ==> next.draw == c.draw,
{
    match (c.phase, ev) {
        (Phase::Create, Event::Created(Ok(_))) => State {
            phase: after_create(c.clobber, c.mode),
            ..c
        },
        (Phase::Create, Event::Created(Err(e))) => {
            if e.is(EEXIST) && c.taken < TRIES {
                if c.taken + 1 < TRIES {
                    State { taken: c.taken + 1, draw: n, ..c }
                } else {
                    State { taken: c.taken + 1, phase: Phase::Done(Err(e)), ..c }
                }
            } else {
                State { phase: Phase::Done(Err(e)), ..c }
            }
        },
        (Phase::Stat, Event::Statted(Ok(m))) => State { phase: Phase::Chmod(m), ..c },
        (Phase::Stat, Event::Statted(Err(e))) => {
            if e.is(ENOENT) {
                State { phase: Phase::Chmod(c.mode), ..c }
            } else {
                State { phase: Phase::Unlink(Err(e)), ..c }
            }
        },
        (Phase::Chmod(_), Event::Chmodded(Ok(_))) => State { phase: Phase::Populate, ..c },
        (Phase::Chmod(_), Event::Chmodded(Err(e))) => State { phase: Phase::Unlink(Err(e)), ..c },
        (Phase::Populate, Event::Populated(Ok(_))) => State { phase: commit(c.clobber), ..c },
        (Phase::Populate, Event::Populated(Err(e))) => State { phase: Phase::Unlink(Err(e)), ..c },
        (Phase::Link, Event::Linked(r)) => State { phase: Phase::Unlink(r), ..c },
        (Phase::Rename, Event::Renamed(Ok(_))) => State { phase: Phase::Done(Ok(())), ..c },
        (Phase::Rename, Event::Renamed(Err(e))) => State { phase: Phase::Unlink(Err(e)), ..c },
        (Phase::Unlink(r), Event::Unlinked) => State { phase: Phase::Done(r), ..c },
        _ => c,
    }
}

/// An atomic replacement under way: its state, and the generator of its
/// temporary names.
#[derive(Debug)]
pub struct AtomicWrite {
    state: State,
    rng: SmallRng,
}

impl View for AtomicWrite {
    type V = State;

    /// The state of the replacement.
    closed spec fn view(&self) -> State {
        self.state
    }
}

impl AtomicWrite {
    /// Start an atomic replacement with policy `clobber` and target mode
    /// `mode`. `seed` is what the entropy source of the operating system gave
    /// for the generator of the temporary names; where it gave nothing, the
    /// replacement fails with `EIO`. The first call that is due is to create
    /// the temporary file.
    pub fn begin(clobber: Clobber, mode: FileMode, seed: Option<[u8; 16]>) -> (r: Result<
        AtomicWrite,
        Error,
    >)
        ensures
            seed is None ==> r is Err && r->Err_0@ == EIO,
            seed is Some ==> r is Ok && exists|n: u64| r->Ok_0@ == spec_first(clobber, mode, n),
    {
        match seed {
            None => Err(Error::known(EIO)),
            Some(bytes) => {
                let mut rng = small_rng_from_seed(bytes);
                let n = small_rng_next(&mut rng);
                let state = State { clobber, mode, phase: Phase::Create, taken: 0, draw: n };
                assert(state == spec_first(clobber, mode, n));
                Ok(AtomicWrite { state, rng })
            },
        }
    }

    /// The state of the replacement.
    pub fn state(&self) -> (c: State)
        ensures
            c == self@,
    {
        self.state
    }

    /// The call that is due.
    pub fn phase(&self) -> (p: Phase)
        ensures
            p == self@.phase,
    {
        self.state.phase
    }

    /// The path of the temporary file: its name, in the directory of the
    /// target.
    pub fn temp_path(&self) -> (path: OsStr)
        ensures
            path@ == temp_name(self@),
    {
        temp_path_of(self.state.draw)
    }

    /// Take note of what the call that was due returned. Where the temporary
    /// name was found taken and the budget allows, a fresh name is drawn.
    pub fn step(&mut self, ev: Event)
        ensures
            exists|n: u64| final(self)@ == spec_step(old(self)@, ev, n),
            !spec_draws(old(self)@, ev) ==> final(self)@ == spec_step(old(self)@, ev, old(self)@.draw),
    {
        let n = if draws(&self.state, &ev) {
            small_rng_next(&mut self.rng)
        } else {
            self.state.draw
        };
        self.state = step_with(self.state, ev, n);
    }
}

/// The flag word and the mode that the temporary file is opened with: for
/// reading and writing, to be created and not to be there yet, with a mode
/// that lets its owner read and write it.
pub fn temp_open_words() -> (w: (usize, u16))
    ensures
        w == (TEMP_OPEN_WORD, TEMP_MODE),
        TEMP_OPEN_WORD == O_RDWR | O_EXCL | O_CREAT,
{
    proof {
        assert(((2usize | 0usize) | 0o200usize) | 0o100usize == 0o302usize) by (bit_vector);
        assert(0o302usize == 2usize | 0o200usize | 0o100usize) by (bit_vector);
    }
    mktemp_words(OpenFlags::empty())
}

/// The path of the temporary file whose name the number `n` gives.
pub fn temp_path_of(n: u64) -> (path: OsStr)
    ensures
        path@ == rand_name(n, TEMP_NAME_LEN as nat),
{
    let mut bytes: Vec<u8> = Vec::new();
    let mut i: usize = 0;
    while i < TEMP_NAME_LEN
        invariant
            i <= TEMP_NAME_LEN,
            bytes.len() == i,
        decreases TEMP_NAME_LEN - i,
    {
        bytes.push(0x20);
        i = i + 1;
    }
    bytes.push(0);
    fill_name(n, &mut bytes, 0, TEMP_NAME_LEN);
    assert(bytes@.drop_last() =~= rand_name(n, TEMP_NAME_LEN as nat));
    OsStr::from_mut_bytes(bytes)
}

/// The state after the first `k` attempts to create the temporary file all
/// found their name taken; `draws(i)` gives the name of attempt `i`.
pub open spec fn after_collisions(
    clobber: Clobber,
    mode: FileMode,
    draws: spec_fn(nat) -> u64,
    k: nat,
) -> State
    decreases k,
{
    if k == 0 {
        spec_first(clobber, mode, draws(0))
    } else {
        spec_step(
            after_collisions(clobber, mode, draws, (k - 1) as nat),
            Event::Created(Err(Error::of(EEXIST))),
            draws(k),
        )
    }
}

/// Where every temporary name is found taken, the replacement gives up
/// after exactly `TRIES` attempts: while fewer attempts have failed, another
/// one, under a fresh name, is due; once `TRIES` have failed, no call is due
/// any more and the result is the error `EEXIST`.
pub proof fn lemma_gives_up_after_all_tries(
    clobber: Clobber,
    mode: FileMode,
    draws: spec_fn(nat) -> u64,
    k: nat,
)
    requires
        k <= TRIES,
    ensures
        after_collisions(clobber, mode, draws, k).taken == k,
        k < TRIES ==> after_collisions(clobber, mode, draws, k).phase is Create
            && after_collisions(clobber, mode, draws, k).draw == draws(k),
        k == TRIES ==> after_collisions(clobber, mode, draws, k).phase == Phase::Done(
            Err(Error::of(EEXIST)),
        ),
    decreases k,
{
    Error::lemma_of(EEXIST);
    if k > 0 {
        lemma_gives_up_after_all_tries(clobber, mode, draws, (k - 1) as nat);
    }
}

/// The attempts to create the temporary file follow the budget of temporary
/// names: a fresh name is drawn where the budget says to try again, and the
/// names that were found taken are counted as the budget counts them.
pub proof fn lemma_create_follows_budget(c: State, r: Result<(), Error>, n: u64)
    requires
        c.phase is Create,
        c.taken <= TRIES,
    ensures
        spec_step(c, Event::Created(r), n).taken == spec_taken(c.taken as nat, r),
        spec_settle(c.taken as nat, r) is Retry <==> spec_draws(c, Event::Created(r)),
        spec_settle(c.taken as nat, r) is Retry ==> spec_step(c, Event::Created(r), n).phase
            is Create && spec_step(c, Event::Created(r), n).draw == n,
        spec_settle(c.taken as nat, r) matches Verdict::Return(Err(e)) ==> spec_step(
            c,
            Event::Created(r),
            n,
        ).phase == Phase::Done(Err(e)),
{
}

/// Once a result is due, no event changes the state any more.
pub proof fn lemma_done_is_final(c: State, ev: Event, n: u64)
    requires
        c.phase is Done,
    ensures
        spec_step(c, ev, n) == c,
{
}

/// A failure of the writer, like a failure to link or to rename, is the
/// result of the replacement, and the only call between the failure and the
/// result is to unlink the temporary name: the target path is neither linked
/// nor renamed onto.
pub proof fn lemma_failure_unlinks_and_returns(c: State, e: Error, n: u64, m: u64)
    requires
        c.phase is Populate || c.phase is Link || c.phase is Rename,
    ensures
        ({
            let ev = match c.phase {
                Phase::Populate => Event::Populated(Err(e)),
                Phase::Link => Event::Linked(Err(e)),
                _ => Event::Renamed(Err(e)),
            };
            let failed = spec_step(c, ev, n);
            &&& failed.phase == Phase::Unlink(Err(e))
            &&& spec_step(failed, Event::Unlinked, m).phase == Phase::Done(Err(e))
        }),
{
}

} // verus!
