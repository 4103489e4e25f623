//! Why a snapshot that is loaded is always one that was saved whole.
//!
//! The directory is modelled by what lies at each of the three places of a
//! snapshot: nothing, or a file of a given save. It is taken that the
//! directory holds the files of one collection and that a step is done in
//! full or not at all. A plan may stop after any of its steps, by a crash
//! or by a failed step. A save changes nothing of the canonical snapshot,
//! however far it comes; and whatever was left behind, the steps that an
//! open plans bring the canonical snapshot to two files of one save, or to
//! none.

use vstd::prelude::*;
use crate::snapshot::{
    clearing, engine_file, file_of, promoting, recovery, staged_base, staging, staging_of, DiskProbe,
    FsActionView, Part,
};

verus! {

/// Where a snapshot lies.
pub enum Place {
    /// Where the engine wrote it.
    Written,
    /// Under the staged name.
    Staged,
    /// Under the name of the collection, from which it is loaded.
    Canonical,
}

/// One step on the files of a snapshot.
pub enum Step {
    /// The rename of one file from one place to another.
    Move { part: Part, from: Place, to: Place },
    /// The removal of one file.
    Remove { part: Part, place: Place },
}

/// The step that promotes one file of the staged snapshot.
pub open spec fn promote(part: Part) -> Step {
    Step::Move { part, from: Place::Staged, to: Place::Canonical }
}

/// The step that stages one file of the written snapshot.
pub open spec fn stage(part: Part) -> Step {
    Step::Move { part, from: Place::Written, to: Place::Staged }
}

/// The steps that bring the canonical snapshot up to date, given what a
/// probe found.
pub open spec fn recovery_steps(probe: DiskProbe) -> Seq<Step> {
    if probe.staged_graph_exists {
        if probe.staged_data_exists {
            seq![promote(Part::Data), promote(Part::Graph)]
        } else {
            seq![promote(Part::Graph)]
        }
    } else {
        Seq::empty()
    }
}

/// The steps that make room for a new staged snapshot.
pub open spec fn clearing_steps(probe: DiskProbe) -> Seq<Step> {
    if probe.staged_graph_exists {
        seq![Step::Remove { part: Part::Graph, place: Place::Staged }]
    } else {
        Seq::empty()
    }
}

/// The steps that follow a write of the engine.
pub open spec fn staging_steps(probe: DiskProbe) -> Seq<Step> {
    clearing_steps(probe) + seq![stage(Part::Data), stage(Part::Graph)]
}

/// The name of the file of `collection` at a place, where the engine wrote
/// under the base name `written`.
pub open spec fn file_at(collection: Seq<char>, written: Seq<char>, place: Place, part: Part) -> Seq<char> {
    match place {
        Place::Written => engine_file(written, part),
        Place::Staged => file_of(staged_base(collection), part),
        Place::Canonical => file_of(collection, part),
    }
}

/// The step on the directory that carries a step of the model out.
pub open spec fn named(collection: Seq<char>, written: Seq<char>, step: Step) -> FsActionView {
    match step {
        Step::Move { part, from, to } => FsActionView::Rename {
            from: file_at(collection, written, from, part),
            to: file_at(collection, written, to, part),
        },
        Step::Remove { part, place } => FsActionView::Remove { file: file_at(collection, written, place, part) },
    }
}

/// The plans on the directory are these steps, one by one: what holds of
/// the steps holds of what the plans do to the files.
pub proof fn lemma_plans_carry_the_steps_out(collection: Seq<char>, written: Seq<char>, probe: DiskProbe)
    ensures
        recovery(collection, probe) == recovery_steps(probe).map_values(
            |step: Step| named(collection, written, step),
        ),
        staging(collection, written, probe) == staging_steps(probe).map_values(
            |step: Step| named(collection, written, step),
        ),
{
    assert(named(collection, written, promote(Part::Data)) == promoting(collection, Part::Data));
    assert(named(collection, written, promote(Part::Graph)) == promoting(collection, Part::Graph));
    assert(named(collection, written, stage(Part::Data)) == staging_of(collection, written, Part::Data));
    assert(named(collection, written, stage(Part::Graph)) == staging_of(collection, written, Part::Graph));
    assert(clearing(collection, probe) =~= clearing_steps(probe).map_values(
        |step: Step| named(collection, written, step),
    ));
    assert(recovery(collection, probe) =~= recovery_steps(probe).map_values(
        |step: Step| named(collection, written, step),
    ));
    assert(staging(collection, written, probe) =~= staging_steps(probe).map_values(
        |step: Step| named(collection, written, step),
    ));
}

/// The two files at one place: for each, the number of the save that wrote
/// it, if the file is there.
pub struct Pair {
    pub data: Option<nat>,
    pub graph: Option<nat>,
}

/// The snapshot files of a collection.
pub struct Disk {
    pub written: Pair,
    pub staged: Pair,
    pub canonical: Pair,
}

impl Pair {
    /// One of the two files.
    pub open spec fn part(self, part: Part) -> Option<nat> {
        match part {
            Part::Data => self.data,
            Part::Graph => self.graph,
        }
    }

    /// The pair with one file replaced.
    pub open spec fn with(self, part: Part, file: Option<nat>) -> Pair {
        match part {
            Part::Data => Pair { data: file, ..self },
            Part::Graph => Pair { graph: file, ..self },
        }
    }

    /// Both files are there and come from one save, or neither is there.
    pub open spec fn is_whole(self) -> bool {
        self.data == self.graph
    }
}

impl Disk {
    /// The files at a place.
    pub open spec fn at(self, place: Place) -> Pair {
        match place {
            Place::Written => self.written,
            Place::Staged => self.staged,
            Place::Canonical => self.canonical,
        }
    }

    /// The disk with the files at one place replaced.
    pub open spec fn with(self, place: Place, pair: Pair) -> Disk {
        match place {
            Place::Written => Disk { written: pair, ..self },
            Place::Staged => Disk { staged: pair, ..self },
            Place::Canonical => Disk { canonical: pair, ..self },
        }
    }

    /// What a probe finds of the staged files.
    pub open spec fn is_seen_by(self, probe: DiskProbe) -> bool {
        &&& probe.staged_data_exists == (self.staged.data is Some)
        &&& probe.staged_graph_exists == (self.staged.graph is Some)
    }

    /// Nothing waits to be promoted: the canonical snapshot is whole and no
    /// staged graph file is there. A staged data file may be left from a
    /// save that was cut short.
    pub open spec fn is_quiet(self) -> bool {
        self.canonical.is_whole() && self.staged.graph is None
    }

    /// A whole snapshot is staged beside a whole canonical one.
    pub open spec fn is_staged(self) -> bool {
        self.canonical.is_whole() && self.staged.is_whole() && self.staged.data is Some
    }

    /// A promotion was cut short after its first rename: the data file has
    /// arrived, the graph file of the same save still waits.
    pub open spec fn is_half_promoted(self) -> bool {
        &&& self.staged.data is None
        &&& self.staged.graph is Some
        &&& self.canonical.data == self.staged.graph
    }

    /// No promotion is under way. This is how an open that was carried
    /// through leaves the disk, and how every step of a save leaves it
    /// again: the state in which a worker serves.
    pub open spec fn is_settled(self) -> bool {
        self.is_quiet() || self.is_staged()
    }

    /// One of the states that the plans of this library pass through.
    pub open spec fn is_recoverable(self) -> bool {
        self.is_settled() || self.is_half_promoted()
    }
}

/// The disk after one step. A step on a file that is not there changes
/// nothing. A file that arrives takes the place of the one that was there.
pub open spec fn done(disk: Disk, step: Step) -> Disk {
    match step {
        Step::Move { part, from, to } => {
            let file = disk.at(from).part(part);
            if file is None || from == to {
                disk
            } else {
                let taken = disk.with(from, disk.at(from).with(part, None));
                taken.with(to, taken.at(to).with(part, file))
            }
        },
        Step::Remove { part, place } => disk.with(place, disk.at(place).with(part, None)),
    }
}

/// The disk after the first `n` steps of a plan.
pub open spec fn ran(disk: Disk, steps: Seq<Step>, n: nat) -> Disk
    decreases n,
{
    if n == 0 || n > steps.len() {
        disk
    } else {
        done(ran(disk, steps, (n - 1) as nat), steps[n - 1])
    }
}

/// The disk once the engine has written the two files of save `save`.
pub open spec fn wrote(disk: Disk, save: nat) -> Disk {
    Disk { written: Pair { data: Some(save), graph: Some(save) }, ..disk }
}

/// An empty directory is a state to start from.
pub proof fn lemma_empty_disk_is_quiet(disk: Disk)
    requires
        disk.staged == (Pair { data: None, graph: None }),
        disk.canonical == (Pair { data: None, graph: None }),
    ensures
        disk.is_quiet(),
        disk.is_settled(),
        disk.is_recoverable(),
{
}

/// Bringing the canonical snapshot up to date may stop after any step and
/// be taken up again: every state on the way is one that an open can deal
/// with, and at the end the canonical snapshot is whole and nothing waits
/// to be promoted.
pub proof fn lemma_recovery_is_safe(disk: Disk, probe: DiskProbe, n: nat)
    requires
        disk.is_recoverable(),
        disk.is_seen_by(probe),
        n <= recovery_steps(probe).len(),
    ensures
        ran(disk, recovery_steps(probe), n).is_recoverable(),
        ran(disk, recovery_steps(probe), n).written == disk.written,
        n == recovery_steps(probe).len() ==> ran(disk, recovery_steps(probe), n).is_quiet(),
        n == recovery_steps(probe).len() && disk.is_staged() ==> ran(disk, recovery_steps(probe), n).canonical
            == disk.staged,
        n == recovery_steps(probe).len() && disk.is_quiet() ==> ran(disk, recovery_steps(probe), n).canonical
            == disk.canonical,
{
    let steps = recovery_steps(probe);
    let first = ran(disk, steps, 1);
    let second = ran(disk, steps, 2);
    assert(ran(disk, steps, 0) == disk);
    if steps.len() >= 1 {
        assert(first == done(ran(disk, steps, 0), steps[0]));
    }
    if steps.len() >= 2 {
        assert(second == done(first, steps[1]));
    }
}

/// Opening is idempotent: once an open was carried through, the next open
/// finds nothing to promote and leaves every file as it is.
pub proof fn lemma_second_open_changes_nothing(disk: Disk, first: DiskProbe, second: DiskProbe, n: nat)
    requires
        disk.is_recoverable(),
        disk.is_seen_by(first),
        ran(disk, recovery_steps(first), recovery_steps(first).len()).is_seen_by(second),
    ensures
        recovery_steps(second) == Seq::<Step>::empty(),
        ran(ran(disk, recovery_steps(first), recovery_steps(first).len()), recovery_steps(second), n) == ran(
            disk,
            recovery_steps(first),
            recovery_steps(first).len(),
        ),
{
    lemma_recovery_is_safe(disk, first, recovery_steps(first).len());
}

/// A save changes nothing of the canonical snapshot, and may stop after
/// any step: on a disk on which no promotion is under way, every state on
/// the way is again such a state, with the canonical files as they were. A
/// save that is carried through leaves its snapshot staged whole.
pub proof fn lemma_save_is_safe(disk: Disk, probe: DiskProbe, save: nat, n: nat)
    requires
        disk.is_settled(),
        disk.is_seen_by(probe),
        n <= staging_steps(probe).len(),
    ensures
        ran(wrote(disk, save), staging_steps(probe), n).is_settled(),
        ran(wrote(disk, save), staging_steps(probe), n).canonical == disk.canonical,
        n == staging_steps(probe).len() ==> {
            let saved = ran(wrote(disk, save), staging_steps(probe), n);
            &&& saved.is_staged()
            &&& saved.staged == (Pair { data: Some(save), graph: Some(save) })
        },
{
    let start = wrote(disk, save);
    let steps = staging_steps(probe);
    let len: nat = clearing_steps(probe).len();
    assert(steps.len() == len + 2);
    assert(forall|i: int| 0 <= i < len ==> steps[i] == clearing_steps(probe)[i]);
    assert(steps[len as int] == stage(Part::Data));
    assert(steps[len as int + 1] == stage(Part::Graph));
    assert(ran(start, steps, 0) == start);
    assert(ran(start, steps, 1) == done(ran(start, steps, 0), steps[0]));
    assert(ran(start, steps, 2) == done(ran(start, steps, 1), steps[1]));
    if steps.len() >= 3 {
        assert(ran(start, steps, 3) == done(ran(start, steps, 2), steps[2]));
    }
}

/// What was saved last is what is loaded next: after a save that was
/// carried through, the next open, carried through, makes the two files of
/// that save the canonical snapshot.
pub proof fn lemma_saved_snapshot_is_loaded(disk: Disk, before: DiskProbe, save: nat, after: DiskProbe)
    requires
        disk.is_settled(),
        disk.is_seen_by(before),
        ran(wrote(disk, save), staging_steps(before), staging_steps(before).len()).is_seen_by(after),
    ensures
        ({
            let saved = ran(wrote(disk, save), staging_steps(before), staging_steps(before).len());
            let opened = ran(saved, recovery_steps(after), recovery_steps(after).len());
            opened.canonical == (Pair { data: Some(save), graph: Some(save) })
        }),
{
    let saved = ran(wrote(disk, save), staging_steps(before), staging_steps(before).len());
    lemma_save_is_safe(disk, before, save, staging_steps(before).len());
    lemma_recovery_is_safe(saved, after, recovery_steps(after).len());
}

/// A crash never shows in what is loaded: however far a save came, the
/// next open, carried through, leaves a canonical snapshot that is whole.
/// It is the one that was there before the save, or the one that was
/// staged before it, if the save did not get to clear that away.
pub proof fn lemma_crash_leaves_whole_snapshot(
    disk: Disk,
    before: DiskProbe,
    save: nat,
    stopped: nat,
    after: DiskProbe,
)
    requires
        disk.is_settled(),
        disk.is_seen_by(before),
        stopped < staging_steps(before).len(),
        ran(wrote(disk, save), staging_steps(before), stopped).is_seen_by(after),
    ensures
        ({
            let opened = ran(
                ran(wrote(disk, save), staging_steps(before), stopped),
                recovery_steps(after),
                recovery_steps(after).len(),
            );
            &&& opened.canonical.is_whole()
            &&& opened.is_quiet()
            &&& (opened.canonical == disk.canonical || (disk.is_staged() && stopped == 0 && opened.canonical
                == disk.staged))
        }),
{
    let crashed = ran(wrote(disk, save), staging_steps(before), stopped);
    lemma_save_is_safe(disk, before, save, stopped);
    lemma_recovery_is_safe(crashed, after, recovery_steps(after).len());
    let steps = staging_steps(before);
    let start = wrote(disk, save);
    assert(ran(start, steps, 0) == start);
    if stopped >= 1 {
        assert(ran(start, steps, 1) == done(ran(start, steps, 0), steps[0]));
    }
    if stopped >= 2 {
        assert(ran(start, steps, 2) == done(ran(start, steps, 1), steps[1]));
    }
}

} // verus!
