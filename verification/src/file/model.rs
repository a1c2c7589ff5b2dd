//! What an atomic replacement does to a directory: a model of the directory
//! and of the calls, and the proof that the target is replaced in full or
//! not at all, with no temporary file left behind.
//!
//! The model holds one directory; nobody else changes it while the
//! replacement runs. A call may fail at any time, and then changes nothing.

use vstd::prelude::*;
use crate::err::{EEXIST, ENOENT};
use crate::err_::Error;
use crate::file::atomic::{spec_step, temp_name, Event, Phase, State, TEMP_MODE};
use crate::file::flags::FileMode;
use crate::file::Clobber;

verus! {

/// A file of the model: its contents and its mode.
pub struct Node {
    /// The bytes of the file.
    pub content: Seq<u8>,
    /// The mode bits of the file.
    pub mode: u16,
}

/// How the call that is due in state `c` may answer with `ev` in the
/// directory `d`, which maps the names to their files, and leave the
/// directory `after`. `target` is the name to be replaced, `written` what the
/// writer leaves in the file it is handed.
///
/// A file is created only under a name that is free; information is had only
/// of a file that is there, and it is not reported missing if it is there; a
/// name is linked only if it is free. A call that fails changes nothing. The
/// writer fills the temporary file, whether it then reports success or not.
pub open spec fn answers(
    d: Map<Seq<u8>, Node>,
    c: State,
    target: Seq<u8>,
    written: Seq<u8>,
    ev: Event,
    after: Map<Seq<u8>, Node>,
) -> bool {
    let temp = temp_name(c);
    match (c.phase, ev) {
        (Phase::Create, Event::Created(Ok(_))) => {
            &&& !d.dom().contains(temp)
            &&& after == d.insert(temp, Node { content: Seq::empty(), mode: TEMP_MODE })
        },
        (Phase::Create, Event::Created(Err(_))) => after == d,
        (Phase::Stat, Event::Statted(Ok(m))) => {
            &&& d.dom().contains(target)
            &&& m@ == d[target].mode
            &&& after == d
        },
        (Phase::Stat, Event::Statted(Err(e))) => {
            &&& e@ == ENOENT ==> !d.dom().contains(target)
            &&& after == d
        },
        (Phase::Chmod(m), Event::Chmodded(Ok(_))) => after == d.insert(
            temp,
            Node { content: d[temp].content, mode: m@ },
        ),
        (Phase::Chmod(_), Event::Chmodded(Err(_))) => after == d,
        (Phase::Populate, Event::Populated(_)) => after == d.insert(
            temp,
            Node { content: written, mode: d[temp].mode },
        ),
        (Phase::Link, Event::Linked(Ok(_))) => {
            &&& !d.dom().contains(target)
            &&& after == d.insert(target, d[temp])
        },
        (Phase::Link, Event::Linked(Err(_))) => after == d,
        (Phase::Rename, Event::Renamed(Ok(_))) => after == d.remove(temp).insert(target, d[temp]),
        (Phase::Rename, Event::Renamed(Err(_))) => after == d,
        (Phase::Unlink(_), Event::Unlinked) => after == d.remove(temp),
        _ => false,
    }
}

/// The mode that the replaced file gets: under `ClobberSavingPerms` that of
/// the file that was at the target before, if there was one; else the mode
/// that was asked for.
pub open spec fn kept_mode(
    before: Map<Seq<u8>, Node>,
    clobber: Clobber,
    mode: FileMode,
    target: Seq<u8>,
) -> u16 {
    if clobber is ClobberSavingPerms && before.dom().contains(target) {
        before[target].mode
    } else {
        mode@
    }
}

/// The directory `before` with the target replaced.
pub open spec fn replaced(
    before: Map<Seq<u8>, Node>,
    clobber: Clobber,
    mode: FileMode,
    target: Seq<u8>,
    written: Seq<u8>,
) -> Map<Seq<u8>, Node> {
    before.insert(
        target,
        Node { content: written, mode: kept_mode(before, clobber, mode, target) },
    )
}

/// Whether `d` is `before` with one more file, under the name `temp`.
pub open spec fn staged(before: Map<Seq<u8>, Node>, d: Map<Seq<u8>, Node>, temp: Seq<u8>) -> bool {
    &&& !before.dom().contains(temp)
    &&& d.dom().contains(temp)
    &&& d.remove(temp) == before
}

/// What holds of the directory `d` in state `c` of a replacement that
/// started in the directory `before`.
pub open spec fn consistent(
    before: Map<Seq<u8>, Node>,
    target: Seq<u8>,
    written: Seq<u8>,
    c: State,
    d: Map<Seq<u8>, Node>,
) -> bool {
    let temp = temp_name(c);
    let mode = kept_mode(before, c.clobber, c.mode, target);
    let file = Node { content: written, mode };
    match c.phase {
        Phase::Create => d == before,
        Phase::Stat => c.clobber is ClobberSavingPerms && staged(before, d, temp),
        Phase::Chmod(m) => staged(before, d, temp) && m@ == mode,
        Phase::Populate => staged(before, d, temp) && d[temp].mode == mode,
        Phase::Link => c.clobber is NoClobber && staged(before, d, temp) && d[temp] == file,
        Phase::Rename => !(c.clobber is NoClobber) && staged(before, d, temp) && d[temp] == file,
        Phase::Unlink(Err(_)) => staged(before, d, temp),
        Phase::Unlink(Ok(_)) => {
            &&& c.clobber is NoClobber
            &&& !before.dom().contains(target)
            &&& staged(before.insert(target, file), d, temp)
        },
        Phase::Done(Err(_)) => d == before,
        Phase::Done(Ok(_)) => {
            &&& d == before.insert(target, file)
            &&& !before.dom().contains(temp)
            &&& c.clobber is NoClobber ==> !before.dom().contains(target)
        },
    }
}

/// One call keeps the directory consistent with the state.
pub proof fn lemma_step_keeps_consistent(
    before: Map<Seq<u8>, Node>,
    target: Seq<u8>,
    written: Seq<u8>,
    c: State,
    d: Map<Seq<u8>, Node>,
    ev: Event,
    n: u64,
    after: Map<Seq<u8>, Node>,
)
    requires
        consistent(before, target, written, c, d),
        answers(d, c, target, written, ev, after),
        temp_name(c) != target,
    ensures
        consistent(before, target, written, spec_step(c, ev, n), after),
        spec_step(c, ev, n).clobber == c.clobber,
        spec_step(c, ev, n).mode == c.mode,
{
    let temp = temp_name(c);
    let next = spec_step(c, ev, n);
    let mode = kept_mode(before, c.clobber, c.mode, target);
    let file = Node { content: written, mode };
    match (c.phase, ev) {
        (Phase::Create, Event::Created(Ok(_))) => {
            assert(after.remove(temp) =~= before);
        },
        (Phase::Create, Event::Created(Err(_))) => {},
        (Phase::Stat, Event::Statted(Ok(m))) => {
            assert(d.remove(temp).dom().contains(target));
            assert(d.remove(temp)[target] == d[target]);
        },
        (Phase::Stat, Event::Statted(Err(e))) => {
            if e@ == ENOENT {
                if before.dom().contains(target) {
                    assert(d.remove(temp).dom().contains(target));
                }
            }
        },
        (Phase::Chmod(m), Event::Chmodded(Ok(_))) => {
            assert(after.remove(temp) =~= d.remove(temp));
        },
        (Phase::Chmod(_), Event::Chmodded(Err(_))) => {},
        (Phase::Populate, Event::Populated(_)) => {
            assert(after.remove(temp) =~= d.remove(temp));
        },
        (Phase::Link, Event::Linked(Ok(_))) => {
            if before.dom().contains(target) {
                assert(d.remove(temp).dom().contains(target));
            }
            assert(after.remove(temp) =~= d.remove(temp).insert(target, file));
        },
        (Phase::Link, Event::Linked(Err(_))) => {},
        (Phase::Rename, Event::Renamed(Ok(_))) => {},
        (Phase::Rename, Event::Renamed(Err(_))) => {},
        (Phase::Unlink(_), Event::Unlinked) => {},
        _ => {},
    }
}

/// A run of a replacement in the model: the states and the directories it
/// went through, the answers of the calls, and the numbers that were drawn.
pub struct Run {
    /// The name to be replaced.
    pub target: Seq<u8>,
    /// What the writer leaves in the file it is handed.
    pub written: Seq<u8>,
    /// The states, from the first on.
    pub states: Seq<State>,
    /// The directory in each state.
    pub dirs: Seq<Map<Seq<u8>, Node>>,
    /// What the call that was due in each state but the last returned.
    pub events: Seq<Event>,
    /// The number drawn after each call.
    pub draws: Seq<u64>,
}

impl Run {
    /// Whether the run is one of a replacement: it starts with the first
    /// attempt to create the temporary file, each call answers as the model
    /// allows, each state follows from the one before, and no temporary
    /// name is the target's.
    pub open spec fn valid(self) -> bool {
        &&& self.states.len() == self.events.len() + 1
        &&& self.dirs.len() == self.events.len() + 1
        &&& self.draws.len() == self.events.len()
        &&& self.states[0].phase is Create
        &&& forall|i: int|
            0 <= i < self.states.len() ==> temp_name(#[trigger] self.states[i]) != self.target
        &&& forall|i: int|
            #![trigger self.events[i]]
            0 <= i < self.events.len() ==> {
                &&& answers(
                    self.dirs[i],
                    self.states[i],
                    self.target,
                    self.written,
                    self.events[i],
                    self.dirs[i + 1],
                )
                &&& self.states[i + 1] == spec_step(self.states[i], self.events[i], self.draws[i])
            }
    }

    /// The policy of the replacement.
    pub open spec fn clobber(self) -> Clobber {
        self.states[0].clobber
    }

    /// The mode that was asked for.
    pub open spec fn mode(self) -> FileMode {
        self.states[0].mode
    }

    /// The directory before the replacement.
    pub open spec fn before(self) -> Map<Seq<u8>, Node> {
        self.dirs[0]
    }

    /// The directory at the end of the run.
    pub open spec fn after(self) -> Map<Seq<u8>, Node> {
        self.dirs.last()
    }

    /// Whether the run has come to its result `r`.
    pub open spec fn ends_with(self, r: Result<(), Error>) -> bool {
        self.states.last().phase == Phase::Done(r)
    }

    /// In every state of a run, the directory is consistent with the state.
    pub proof fn lemma_consistent(self, i: int)
        requires
            self.valid(),
            0 <= i < self.states.len(),
        ensures
            consistent(self.before(), self.target, self.written, self.states[i], self.dirs[i]),
            self.states[i].clobber == self.clobber(),
            self.states[i].mode == self.mode(),
        decreases i,
    {
        if i > 0 {
            self.lemma_consistent(i - 1);
            let _ = self.events[i - 1];
            lemma_step_keeps_consistent(
                self.before(),
                self.target,
                self.written,
                self.states[i - 1],
                self.dirs[i - 1],
                self.events[i - 1],
                self.draws[i - 1],
                self.dirs[i],
            );
        }
    }

    /// A replacement is all or nothing. If it succeeds, the directory is the
    /// one before it with the target replaced: the target holds what the
    /// writer wrote, under the mode that is kept or asked for, and every
    /// other name is as it was, so that no temporary file is left; under
    /// `NoClobber` there was no file at the target before. If it fails, the
    /// directory is as it was before: the target is untouched and no
    /// temporary file is left.
    pub proof fn theorem_all_or_nothing(self, r: Result<(), Error>)
        requires
            self.valid(),
            self.ends_with(r),
        ensures
            r is Ok ==> self.after() == replaced(
                self.before(),
                self.clobber(),
                self.mode(),
                self.target,
                self.written,
            ),
            r is Ok && self.clobber() is NoClobber ==> !self.before().dom().contains(self.target),
            r is Err ==> self.after() == self.before(),
    {
        self.lemma_consistent(self.states.len() - 1);
    }

    /// At every moment of a replacement the target is either untouched or
    /// replaced in full: what is written is never seen at the target path
    /// in part.
    pub proof fn law_target_is_old_or_new(self, i: int)
        requires
            self.valid(),
            0 <= i < self.states.len(),
        ensures
            ({
                let untouched = {
                    &&& self.dirs[i].dom().contains(self.target) == self.before().dom().contains(
                        self.target,
                    )
                    &&& self.dirs[i][self.target] == self.before()[self.target]
                };
                let replaced = {
                    &&& self.dirs[i].dom().contains(self.target)
                    &&& self.dirs[i][self.target] == (Node {
                        content: self.written,
                        mode: kept_mode(self.before(), self.clobber(), self.mode(), self.target),
                    })
                };
                untouched || replaced
            }),
    {
        self.lemma_consistent(i);
        let d = self.dirs[i];
        let temp = temp_name(self.states[i]);
        assert(d.remove(temp).dom().contains(self.target) == d.dom().contains(self.target));
        assert(d.remove(temp)[self.target] == d[self.target]);
    }

    /// Under `Clobber`, after a replacement that succeeded the target holds
    /// exactly what the writer wrote, under the mode that was asked for; the
    /// temporary name is gone, and every other name is as it was.
    pub proof fn law_clobber_replaces(self)
        requires
            self.valid(),
            self.ends_with(Ok(())),
            self.clobber() is Clobber,
        ensures
            self.after().dom().contains(self.target),
            self.after()[self.target] == (Node { content: self.written, mode: self.mode()@ }),
            !self.after().dom().contains(temp_name(self.states.last())),
            forall|name: Seq<u8>|
                name != self.target ==> {
                    &&& self.after().dom().contains(name) == self.before().dom().contains(name)
                    &&& self.after()[name] == self.before()[name]
                },
    {
        self.lemma_consistent(self.states.len() - 1);
    }

    /// Under `NoClobber`, a replacement whose target was there before fails;
    /// the directory is then as it was: the target holds what it held, and
    /// no temporary file is left.
    pub proof fn law_no_clobber_keeps_target(self, r: Result<(), Error>)
        requires
            self.valid(),
            self.ends_with(r),
            self.clobber() is NoClobber,
            self.before().dom().contains(self.target),
        ensures
            r is Err,
            self.after() == self.before(),
    {
        self.theorem_all_or_nothing(r);
    }

    /// Under `ClobberSavingPerms`, after a replacement that succeeded and
    /// whose target was there before, the target holds what the writer wrote
    /// under the mode that it had before, whatever mode was asked for.
    pub proof fn law_saving_perms_keeps_mode(self)
        requires
            self.valid(),
            self.ends_with(Ok(())),
            self.clobber() is ClobberSavingPerms,
            self.before().dom().contains(self.target),
        ensures
            self.after().dom().contains(self.target),
            self.after()[self.target].content == self.written,
            self.after()[self.target].mode == self.before()[self.target].mode,
    {
        self.theorem_all_or_nothing(Ok(()));
    }

    /// Once a result is due, the run is over.
    pub proof fn lemma_done_is_last(self, i: int)
        requires
            self.valid(),
            0 <= i < self.states.len(),
            self.states[i].phase is Done,
        ensures
            i == self.states.len() - 1,
    {
        if i < self.events.len() {
            let _ = self.events[i];
            assert(answers(
                self.dirs[i],
                self.states[i],
                self.target,
                self.written,
                self.events[i],
                self.dirs[i + 1],
            ));
        }
    }

    /// A writer that fails leaves the directory as it was before the
    /// replacement: the target is untouched and no temporary file is left.
    /// The error of the writer is the result of the replacement.
    pub proof fn law_writer_failure_changes_nothing(self, i: int, e: Error, r: Result<(), Error>)
        requires
            self.valid(),
            self.ends_with(r),
            0 <= i < self.events.len(),
            self.events[i] == Event::Populated(Err(e)),
        ensures
            r == Err::<(), Error>(e),
            self.after() == self.before(),
    {
        let _ = self.events[i];
        assert(answers(
            self.dirs[i],
            self.states[i],
            self.target,
            self.written,
            self.events[i],
            self.dirs[i + 1],
        ));
        assert(self.states[i].phase is Populate);
        assert(self.states[i + 1].phase == Phase::Unlink(Err(e)));
        assert(i + 1 < self.events.len());
        let _ = self.events[i + 1];
        assert(answers(
            self.dirs[i + 1],
            self.states[i + 1],
            self.target,
            self.written,
            self.events[i + 1],
            self.dirs[i + 2],
        ));
        assert(self.states[i + 2].phase == Phase::Done(Err(e)));
        self.lemma_done_is_last(i + 2);
        self.theorem_all_or_nothing(r);
    }

    /// Whether no call of the run fails but for the reason that the model
    /// gives: a name that is taken, or a target that is missing; and the
    /// writer does not fail.
    pub open spec fn plain(self) -> bool {
        forall|i: int|
            #![trigger self.events[i]]
            0 <= i < self.events.len() ==> match self.events[i] {
                Event::Created(Err(e)) => e@ == EEXIST,
                Event::Statted(Err(e)) => e@ == ENOENT,
                Event::Chmodded(Err(_)) => false,
                Event::Populated(Err(_)) => false,
                Event::Linked(Err(e)) => e@ == EEXIST,
                Event::Renamed(Err(_)) => false,
                _ => true,
            }
    }

    /// In a plain run, the only error that comes to be the result is
    /// `EEXIST`.
    pub proof fn lemma_plain_errors(self, i: int)
        requires
            self.valid(),
            self.plain(),
            0 <= i < self.states.len(),
        ensures
            self.states[i].phase matches Phase::Unlink(Err(e)) ==> e@ == EEXIST,
            self.states[i].phase matches Phase::Done(Err(e)) ==> e@ == EEXIST,
        decreases i,
    {
        if i > 0 {
            self.lemma_plain_errors(i - 1);
            let _ = self.events[i - 1];
            assert(answers(
                self.dirs[i - 1],
                self.states[i - 1],
                self.target,
                self.written,
                self.events[i - 1],
                self.dirs[i],
            ));
        }
    }

    /// Under `NoClobber`, where nothing fails but for the reason that the
    /// model gives, a replacement whose target was there before fails with
    /// `EEXIST`, and the directory is as it was.
    pub proof fn law_no_clobber_reports_existing(self, r: Result<(), Error>)
        requires
            self.valid(),
            self.plain(),
            self.ends_with(r),
            self.clobber() is NoClobber,
            self.before().dom().contains(self.target),
        ensures
            r matches Err(e) && e@ == EEXIST,
            self.after() == self.before(),
    {
        self.law_no_clobber_keeps_target(r);
        self.lemma_plain_errors(self.states.len() - 1);
    }
}

} // verus!
