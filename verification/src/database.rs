//! The one place where the application keeps its handle of the index.
//!
//! The index is costly to load, and two copies of it in memory would write
//! over each other's snapshots. So the application holds a single slot: the
//! first caller opens the collection, later callers find it open, and an
//! explicit drop closes it, after which the next caller opens it again from
//! disk.

use vstd::prelude::*;
use crate::command::{commands_view, CommandView, HnswCommand};
use crate::similarity_search::{teardown, SimilaritySearch};
use crate::snapshot::{plan_view, promotion, DiskProbe, FsAction};
use crate::worker::{initial, Worker};

verus! {

/// Name of the collection that holds the vectors of the activity texts.
pub open spec fn collection_name() -> Seq<char> {
    "activity_vectors"@
}

/// The slot for the handle: empty before the first use and after a drop.
pub struct VectorDatabase {
    slot: Option<SimilaritySearch>,
}

/// What the caller that opened the collection has to set going.
pub struct Start {
    /// The worker for the task that will own the index.
    pub worker: Worker,
    /// The steps to take on the directory before the task loads the
    /// snapshot.
    pub plan: Vec<FsAction>,
}

impl VectorDatabase {
    /// The handle in the slot, if there is one.
    pub closed spec fn current(&self) -> Option<SimilaritySearch> {
        self.slot
    }

    /// An empty slot.
    pub fn new() -> (db: VectorDatabase)
        ensures
            db.current() is None,
    {
        VectorDatabase { slot: None }
    }

    /// The handle in the slot, if there is one.
    pub fn handle(&self) -> (h: Option<&SimilaritySearch>)
        ensures
            match h {
                Some(handle) => self.current() == Some(*handle),
                None => self.current() is None,
            },
    {
        self.slot.as_ref()
    }
}

/// Makes sure that the slot holds a handle. A handle that is there is kept
/// and nothing is returned. Into an empty slot the collection is opened, of
/// whose directory `probe` says what is there; the caller gets the worker
/// and the steps to take, and is the only one that does.
pub fn get_vector_db(db: &mut VectorDatabase, probe: DiskProbe) -> (started: Option<Start>)
    ensures
        final(db).current() is Some,
        old(db).current() is Some ==> started is None && final(db).current() == old(db).current(),
        old(db).current() is None ==> (started matches Some(start) && {
            &&& final(db).current().unwrap().is_open()
            &&& final(db).current().unwrap().collection() == collection_name()
            &&& start.worker.wf()
            &&& start.worker@ == initial(collection_name())
            &&& plan_view(start.plan@) == promotion(collection_name(), probe)
        }),
{
    if db.slot.is_some() {
        None
    } else {
        let opening = SimilaritySearch::open("activity_vectors", probe);
        db.slot = Some(opening.handle);
        Some(Start { worker: opening.worker, plan: opening.plan })
    }
}

/// What emptying a slot with this content queues.
pub open spec fn dropped(current: Option<SimilaritySearch>) -> Seq<CommandView> {
    match current {
        Some(handle) => teardown(handle.is_open()),
        None => Seq::empty(),
    }
}

/// Empties the slot. The handle that was there is closed: the requests to
/// queue for it are returned, a last save and the shutdown.
pub fn drop_database_handle(db: &mut VectorDatabase) -> (last: Vec<HnswCommand>)
    ensures
        final(db).current() is None,
        commands_view(last@) == dropped(old(db).current()),
{
    match db.slot.take() {
        Some(mut handle) => handle.close(),
        None => {
            let last: Vec<HnswCommand> = Vec::new();
            assert(commands_view(last@) =~= Seq::<CommandView>::empty());
            last
        },
    }
}

} // verus!
