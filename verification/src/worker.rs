//! The single writer: the decisions of the task that owns the index.
//!
//! The task takes one request at a time from its queue, asks [`Worker::step`]
//! what to do, does it on the engine, and only then takes the next one. The
//! worker keeps count of the index and a record of what was inserted, so
//! that what a later request observes can be stated.
//!
//! A limit of the index that no longer fits the work stops the worker with
//! a fault, which the task turns into a loud failure. A save that fails
//! does not: the task logs it and the worker goes on serving, so that a
//! disk in trouble never holds a shutdown up.

use vstd::prelude::*;
use crate::command::{received_view, CommandView, HnswCommand};
use crate::config::{MAX_ELEMENTS, MAX_NB_CONNECTION};
use crate::ranking::{accept_candidates, accepted, answer_view, Candidate, EngineFault};
use crate::snapshot::{
    changes, file_of, plan_view, staged_base, staged_name, staging, staging_of, staging_plan, DiskProbe,
    FsAction, FsActionView, Part,
};

verus! {

/// Where the worker is in its life.
#[derive(Clone, Copy, Debug, PartialEq, Eq)]
pub enum Phase {
    /// Made, the snapshot not yet loaded.
    Starting,
    /// Serving requests in the order of the queue.
    Running,
    /// Told to shut down; what is left in the queue is discarded.
    Draining,
    /// Done. Nothing is served any more.
    Stopped,
}

/// A limit fixed when the index was made no longer fits the work. The
/// worker stops.
#[derive(Clone, Copy, Debug, PartialEq, Eq)]
pub enum Fault {
    /// The index is full.
    CapacityExceeded,
    /// The vector does not have the dimension of the index.
    DimensionMismatch,
}

/// What the task does for the request it took.
#[derive(Clone, Debug, PartialEq, Eq)]
pub enum WorkerAction {
    /// Nothing: the worker is not serving.
    Idle,
    /// Drop the request unserved.
    Discard,
    /// Stop taking new requests and empty the queue.
    Drain,
    /// Leave the loop.
    Finish,
    /// Have the engine write a snapshot under this base name.
    Persist(String),
    /// Insert the vector under the document id.
    Insert(Vec<u32>, usize),
    /// Search the neighbours of the vector: how many, and the search width.
    Search(Vec<u32>, usize, usize),
    /// Fail loudly.
    Abort(Fault),
}

/// An action with its payload as sequences.
pub enum ActionView {
    Idle,
    Discard,
    Drain,
    Finish,
    Persist(Seq<char>),
    Insert(Seq<u32>, usize),
    Search(Seq<u32>, usize, usize),
    Abort(Fault),
}

impl View for WorkerAction {
    type V = ActionView;

    open spec fn view(&self) -> ActionView {
        match self {
            WorkerAction::Idle => ActionView::Idle,
            WorkerAction::Discard => ActionView::Discard,
            WorkerAction::Drain => ActionView::Drain,
            WorkerAction::Finish => ActionView::Finish,
            WorkerAction::Persist(name) => ActionView::Persist(name@),
            WorkerAction::Insert(vector, id) => ActionView::Insert(vector@, *id),
            WorkerAction::Search(vector, k, width) => ActionView::Search(vector@, *k, *width),
            WorkerAction::Abort(fault) => ActionView::Abort(*fault),
        }
    }
}

/// What the engine reported of the snapshot it loaded.
#[derive(Clone, Copy, Debug, PartialEq, Eq)]
pub struct LoadedIndex {
    /// Number of elements.
    pub size: usize,
    /// Dimension of the vectors; `None` if the snapshot holds none.
    pub dimension: Option<usize>,
}

/// The worker as the contracts see it.
pub struct WorkerModel {
    pub phase: Phase,
    /// Name of the collection.
    pub collection: Seq<char>,
    /// Number of elements that came with the loaded snapshot.
    pub base: nat,
    /// Dimension of the vectors of the index, once it is fixed.
    pub dimension: Option<nat>,
    /// The vectors inserted since the start, with their document ids, in the
    /// order of insertion.
    pub inserted: Seq<(Seq<u32>, usize)>,
}

impl WorkerModel {
    /// Number of elements of the index.
    pub open spec fn size(self) -> nat {
        self.base + self.inserted.len()
    }

    /// The vector may enter an index of this dimension.
    pub open spec fn fits(self, vector: Seq<u32>) -> bool {
        match self.dimension {
            Some(d) => vector.len() == d,
            None => true,
        }
    }

    /// The record agrees with itself: every inserted vector has the
    /// dimension of the index.
    pub open spec fn wf(self) -> bool {
        &&& self.inserted.len() > 0 ==> self.dimension is Some
        &&& forall|i: int| 0 <= i < self.inserted.len() ==> self.fits(#[trigger] self.inserted[i].0)
    }

    /// The worker in the given phase, all else unchanged.
    pub open spec fn in_phase(self, phase: Phase) -> WorkerModel {
        WorkerModel { phase, ..self }
    }
}

/// The worker as it is made for `collection`.
pub open spec fn initial(collection: Seq<char>) -> WorkerModel {
    WorkerModel {
        phase: Phase::Starting,
        collection,
        base: 0,
        dimension: None,
        inserted: Seq::empty(),
    }
}

/// The worker once loading has ended. A snapshot that could not be loaded
/// leaves a fresh, empty index: that is no failure.
pub open spec fn begun(m: WorkerModel, loaded: Option<LoadedIndex>) -> WorkerModel {
    if m.phase != Phase::Starting {
        m
    } else {
        match loaded {
            Some(index) => WorkerModel {
                phase: Phase::Running,
                collection: m.collection,
                base: index.size as nat,
                dimension: match index.dimension {
                    Some(d) => Some(d as nat),
                    None => None,
                },
                inserted: Seq::empty(),
            },
            None => WorkerModel {
                phase: Phase::Running,
                collection: m.collection,
                base: 0,
                dimension: None,
                inserted: Seq::empty(),
            },
        }
    }
}

/// How a running worker serves one request.
pub open spec fn serve(m: WorkerModel, command: CommandView) -> (WorkerModel, ActionView) {
    match command {
        CommandView::Save => (m, ActionView::Persist(staged_base(m.collection))),
        CommandView::Add(vector, id) => {
            if m.size() >= MAX_ELEMENTS {
                (m.in_phase(Phase::Stopped), ActionView::Abort(Fault::CapacityExceeded))
            } else if !m.fits(vector) {
                (m.in_phase(Phase::Stopped), ActionView::Abort(Fault::DimensionMismatch))
            } else {
                (
                    WorkerModel {
                        dimension: Some(vector.len()),
                        inserted: m.inserted.push((vector, id)),
                        ..m
                    },
                    ActionView::Insert(vector, id),
                )
            }
        },
        CommandView::Lookup(vector, k) => {
            if !m.fits(vector) {
                (m.in_phase(Phase::Stopped), ActionView::Abort(Fault::DimensionMismatch))
            } else {
                (m, ActionView::Search(vector, k, MAX_NB_CONNECTION))
            }
        },
        CommandView::Shutdown => (m.in_phase(Phase::Draining), ActionView::Drain),
    }
}

/// The worker after it took `received` from its queue, and what the task
/// does for it. `None` stands for a queue that is closed and empty, which a
/// running worker takes as the signal to stop.
pub open spec fn react(m: WorkerModel, received: Option<CommandView>) -> (WorkerModel, ActionView) {
    match m.phase {
        Phase::Starting => (m, ActionView::Idle),
        Phase::Stopped => (m, ActionView::Idle),
        Phase::Draining => match received {
            Some(_) => (m, ActionView::Discard),
            None => (m.in_phase(Phase::Stopped), ActionView::Finish),
        },
        Phase::Running => match received {
            Some(command) => serve(m, command),
            None => (m.in_phase(Phase::Stopped), ActionView::Finish),
        },
    }
}

/// The decisions of the task that owns the index.
pub struct Worker {
    phase: Phase,
    collection: String,
    size: usize,
    dimension: Option<usize>,
    base: Ghost<nat>,
    inserted: Ghost<Seq<(Seq<u32>, usize)>>,
}

impl View for Worker {
    type V = WorkerModel;

    closed spec fn view(&self) -> WorkerModel {
        WorkerModel {
            phase: self.phase,
            collection: self.collection@,
            base: self.base@,
            dimension: match self.dimension {
                Some(d) => Some(d as nat),
                None => None,
            },
            inserted: self.inserted@,
        }
    }
}

impl Worker {
    /// The count that the worker keeps is the size of the index, and the
    /// record agrees with itself.
    pub closed spec fn wf(&self) -> bool {
        &&& self.size == self@.size()
        &&& self@.wf()
    }

    /// A worker for `collection_name`, before the snapshot is loaded.
    pub fn new(collection_name: &str) -> (w: Worker)
        ensures
            w.wf(),
            w@ == initial(collection_name@),
    {
        Worker {
            phase: Phase::Starting,
            collection: collection_name.to_owned(),
            size: 0,
            dimension: None,
            base: Ghost(0),
            inserted: Ghost(Seq::empty()),
        }
    }

    /// Where the worker is in its life.
    pub fn phase(&self) -> (p: Phase)
        ensures
            p == self@.phase,
    {
        self.phase
    }

    /// Number of elements of the index.
    pub fn size(&self) -> (n: usize)
        requires
            self.wf(),
        ensures
            n == self@.size(),
    {
        self.size
    }

    /// Ends loading: `loaded` is what the engine reported of the snapshot,
    /// or `None` if there was none or it could not be read. The worker then
    /// runs. A worker that is past its start stays as it is.
    pub fn begin(&mut self, loaded: Option<LoadedIndex>)
        requires
            old(self).wf(),
        ensures
            final(self).wf(),
            final(self)@ == begun(old(self)@, loaded),
    {
        match self.phase {
            Phase::Starting => {
                self.phase = Phase::Running;
                match loaded {
                    Some(index) => {
                        self.size = index.size;
                        self.dimension = index.dimension;
                        self.base = Ghost(index.size as nat);
                    },
                    None => {
                        self.size = 0;
                        self.dimension = None;
                        self.base = Ghost(0);
                    },
                }
                self.inserted = Ghost(Seq::empty());
            },
            _ => {},
        }
    }

    /// Decides what the task does for what it took from its queue, and
    /// moves the worker on.
    pub fn step(&mut self, received: Option<HnswCommand>) -> (action: WorkerAction)
        requires
            old(self).wf(),
        ensures
            final(self).wf(),
            final(self)@ == react(old(self)@, received_view(received)).0,
            action@ == react(old(self)@, received_view(received)).1,
    {
        match self.phase {
            Phase::Starting => WorkerAction::Idle,
            Phase::Stopped => WorkerAction::Idle,
            Phase::Draining => match received {
                Some(_) => WorkerAction::Discard,
                None => {
                    self.phase = Phase::Stopped;
                    WorkerAction::Finish
                },
            },
            Phase::Running => match received {
                None => {
                    self.phase = Phase::Stopped;
                    WorkerAction::Finish
                },
                Some(HnswCommand::Save) => WorkerAction::Persist(staged_name(self.collection.as_str())),
                Some(HnswCommand::Shutdown) => {
                    self.phase = Phase::Draining;
                    WorkerAction::Drain
                },
                Some(HnswCommand::Add(vector, id)) => {
                    if self.size >= MAX_ELEMENTS {
                        self.phase = Phase::Stopped;
                        WorkerAction::Abort(Fault::CapacityExceeded)
                    } else if !self.admits(&vector) {
                        self.phase = Phase::Stopped;
                        WorkerAction::Abort(Fault::DimensionMismatch)
                    } else {
                        self.size = self.size + 1;
                        self.dimension = Some(vector.len());
                        self.inserted = Ghost(self.inserted@.push((vector@, id)));
                        WorkerAction::Insert(vector, id)
                    }
                },
                Some(HnswCommand::Lookup(vector, k)) => {
                    if !self.admits(&vector) {
                        self.phase = Phase::Stopped;
                        WorkerAction::Abort(Fault::DimensionMismatch)
                    } else {
                        WorkerAction::Search(vector, k, MAX_NB_CONNECTION)
                    }
                },
            },
        }
    }

    fn admits(&self, vector: &Vec<u32>) -> (ok: bool)
        ensures
            ok == self@.fits(vector@),
    {
        match self.dimension {
            Some(d) => vector.len() == d,
            None => true,
        }
    }

    /// Decides what is sent back for a `Lookup` of `k` neighbours, given
    /// the engine's answer `raw` to the search that [`Worker::step`] asked
    /// for.
    pub fn answer(&self, k: usize, raw: Vec<Candidate>) -> (r: Result<Vec<Candidate>, EngineFault>)
        requires
            self.wf(),
        ensures
            answer_view(r) == accepted(raw@, k as nat, self@.size()),
    {
        accept_candidates(raw, k, self.size)
    }

    /// Plans what follows the `Persist` that [`Worker::step`] asked for.
    /// `written` is the base name under which the engine wrote the
    /// snapshot, or `None` if it failed; `probe` says what is staged at
    /// that time. No step of the plan changes a canonical file: what is
    /// loaded changes at the next open and not before. A failed save
    /// changes no file at all; it is for the task to log it, and the
    /// worker goes on serving.
    pub fn persisted(&self, written: Option<String>, probe: DiskProbe) -> (plan: Vec<FsAction>)
        ensures
            plan_view(plan@) == match written {
                Some(base) => staging(self@.collection, base@, probe),
                None => Seq::<FsActionView>::empty(),
            },
            forall|i: int, part: Part|
                0 <= i < plan@.len() ==> !changes(
                    #[trigger] plan_view(plan@)[i],
                    #[trigger] file_of(self@.collection, part),
                ),
            written matches Some(base) ==> {
                &&& plan@.len() >= 2
                &&& plan@[plan@.len() - 2]@ == staging_of(self@.collection, base@, Part::Data)
                &&& plan@[plan@.len() - 1]@ == staging_of(self@.collection, base@, Part::Graph)
            },
    {
        match written {
            Some(base) => staging_plan(self.collection.as_str(), base.as_str(), probe),
            None => {
                let plan: Vec<FsAction> = Vec::new();
                assert(plan_view(plan@) =~= Seq::<FsActionView>::empty());
                plan
            },
        }
    }
}

} // verus!
