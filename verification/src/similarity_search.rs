//! The handle through which the application reaches the index.
//!
//! A call computes an embedding, queues one request for the worker and, for
//! a query, waits for one reply. The embedding provider and the queue are
//! the application's; the handle decides what is asked of them, in which
//! order, and what the caller gets back.

use vstd::prelude::*;
use vstd::string::*;
use crate::command::{commands_view, CommandView, HnswCommand};
use crate::config::{MAX_CHARS, MAX_ELEMENTS, MAX_NB_CONNECTION};
use crate::ranking::{accepted, all_distances, is_ranked, Candidate, EngineFault};
use crate::snapshot::{plan_view, promotion, promotion_plan, DiskProbe, FsAction};
use crate::worker::{begun, initial, react, ActionView, Phase, Worker, WorkerModel};

verus! {

/// Why a call on the handle failed.
#[derive(Clone, Debug, PartialEq, Eq)]
pub enum SearchError {
    /// The provider gave no embedding; its message is kept. The caller may
    /// try again.
    EmbeddingFailed(String),
    /// More neighbours were asked for than a query may return.
    TopKTooLarge,
    /// The worker is gone: the request could not be queued, or no reply
    /// came.
    ChannelClosed,
    /// The engine gave an answer that it may not give.
    Engine(EngineFault),
}

/// An error with its message as a sequence of characters.
pub enum SearchErrorView {
    EmbeddingFailed(Seq<char>),
    TopKTooLarge,
    ChannelClosed,
    Engine(EngineFault),
}

impl View for SearchError {
    type V = SearchErrorView;

    open spec fn view(&self) -> SearchErrorView {
        match self {
            SearchError::EmbeddingFailed(message) => SearchErrorView::EmbeddingFailed(message@),
            SearchError::TopKTooLarge => SearchErrorView::TopKTooLarge,
            SearchError::ChannelClosed => SearchErrorView::ChannelClosed,
            SearchError::Engine(fault) => SearchErrorView::Engine(*fault),
        }
    }
}

/// The text of an error, for display or for the log.
pub open spec fn error_text(error: SearchErrorView) -> Seq<char> {
    match error {
        SearchErrorView::EmbeddingFailed(message) => "Failed to compute vector embedding: "@ + message,
        SearchErrorView::TopKTooLarge => "top_k exceeds MAX_NB_CONNECTION"@,
        SearchErrorView::ChannelClosed => "The index worker is no longer available"@,
        SearchErrorView::Engine(fault) => match fault {
            EngineFault::TooManyCandidates => "The index returned more candidates than it may"@,
            EngineFault::InvalidDistance => "The index returned an invalid distance"@,
            EngineFault::OutOfOrder => "The index returned candidates out of order"@,
        },
    }
}

impl SearchError {
    /// The text of the error, for display or for the log.
    pub fn message(&self) -> (text: String)
        ensures
            text@ == error_text(self@),
    {
        match self {
            SearchError::EmbeddingFailed(message) => String::from_str(
                "Failed to compute vector embedding: ",
            ).concat(message.as_str()),
            SearchError::TopKTooLarge => String::from_str("top_k exceeds MAX_NB_CONNECTION"),
            SearchError::ChannelClosed => String::from_str("The index worker is no longer available"),
            SearchError::Engine(fault) => match fault {
                EngineFault::TooManyCandidates => String::from_str(
                    "The index returned more candidates than it may",
                ),
                EngineFault::InvalidDistance => String::from_str("The index returned an invalid distance"),
                EngineFault::OutOfOrder => String::from_str("The index returned candidates out of order"),
            },
        }
    }
}

/// The part of a text that is sent to the embedding provider: all of it, or
/// its first `MAX_CHARS` characters if it is longer.
pub open spec fn truncated(text: Seq<char>) -> Seq<char> {
    if text.len() > MAX_CHARS {
        text.subrange(0, MAX_CHARS as int)
    } else {
        text
    }
}

/// Cuts a text to what is sent to the embedding provider.
pub fn truncate_for_embedding(text: &str) -> (cut: &str)
    ensures
        cut@ == truncated(text@),
{
    if text.unicode_len() > MAX_CHARS {
        text.substring_char(0, MAX_CHARS)
    } else {
        text
    }
}

/// What the provider gave, with vector and message as sequences.
pub open spec fn embedding_view(embedding: Result<Vec<u32>, String>) -> Result<Seq<u32>, Seq<char>> {
    match embedding {
        Ok(vector) => Ok(vector@),
        Err(message) => Err(message@),
    }
}

/// The request that a call queues, or the error it returns, by their views.
pub open spec fn request_view(r: Result<HnswCommand, SearchError>) -> Result<CommandView, SearchErrorView> {
    match r {
        Ok(command) => Ok(command@),
        Err(error) => Err(error@),
    }
}

/// What a query returns, by its view.
pub open spec fn candidates_view(r: Result<Vec<Candidate>, SearchError>) -> Result<Seq<Candidate>, SearchErrorView> {
    match r {
        Ok(candidates) => Ok(candidates@),
        Err(error) => Err(error@),
    }
}

/// What adding a document queues: the insertion of its embedding under its
/// id. A failure of the provider is reported first, then a worker that is
/// gone.
pub open spec fn add_request(open: bool, id: i64, embedding: Result<Seq<u32>, Seq<char>>) -> Result<CommandView, SearchErrorView> {
    match embedding {
        Err(message) => Err(SearchErrorView::EmbeddingFailed(message)),
        Ok(vector) => if open {
            Ok(CommandView::Add(vector, id as usize))
        } else {
            Err(SearchErrorView::ChannelClosed)
        },
    }
}

/// What a query queues: a lookup of its embedding. Too large a `top_k` is
/// reported before anything else, then a failure of the provider, then a
/// worker that is gone.
pub open spec fn lookup_request(open: bool, embedding: Result<Seq<u32>, Seq<char>>, top_k: usize) -> Result<CommandView, SearchErrorView> {
    if top_k > MAX_NB_CONNECTION {
        Err(SearchErrorView::TopKTooLarge)
    } else {
        match embedding {
            Err(message) => Err(SearchErrorView::EmbeddingFailed(message)),
            Ok(vector) => if open {
                Ok(CommandView::Lookup(vector, top_k))
            } else {
                Err(SearchErrorView::ChannelClosed)
            },
        }
    }
}

/// What the caller of a query gets for what came on its reply channel:
/// `None` stands for a channel that closed without a reply.
pub open spec fn delivered(reply: Option<Result<Seq<Candidate>, EngineFault>>) -> Result<Seq<Candidate>, SearchErrorView> {
    match reply {
        None => Err(SearchErrorView::ChannelClosed),
        Some(Err(fault)) => Err(SearchErrorView::Engine(fault)),
        Some(Ok(candidates)) => Ok(candidates),
    }
}

/// What came on a reply channel, by its view.
pub open spec fn reply_view(reply: Option<Result<Vec<Candidate>, EngineFault>>) -> Option<Result<Seq<Candidate>, EngineFault>> {
    match reply {
        None => None,
        Some(Err(fault)) => Some(Err(fault)),
        Some(Ok(candidates)) => Some(Ok(candidates@)),
    }
}

/// The requests that tear a handle down: a last save, then the shutdown.
pub open spec fn teardown(open: bool) -> Seq<CommandView> {
    if open {
        seq![CommandView::Save, CommandView::Shutdown]
    } else {
        Seq::empty()
    }
}

/// The handle of one collection.
pub struct SimilaritySearch {
    collection: String,
    connected: bool,
}

/// What opening a collection yields.
pub struct Opening {
    /// The handle for the callers.
    pub handle: SimilaritySearch,
    /// The worker for the task that will own the index.
    pub worker: Worker,
    /// The steps to take on the directory before the task loads the
    /// snapshot.
    pub plan: Vec<FsAction>,
}

impl SimilaritySearch {
    /// The handle can queue requests: it was opened and not closed since.
    pub closed spec fn is_open(&self) -> bool {
        self.connected
    }

    /// Name of the collection.
    pub closed spec fn collection(&self) -> Seq<char> {
        self.collection@
    }

    /// Opens the collection `collection_name`, of whose directory `probe`
    /// says what is there. Never fails: a missing directory is created, a
    /// staged snapshot is promoted, and with no snapshot at all the index
    /// starts empty.
    pub fn open(collection_name: &str, probe: DiskProbe) -> (opening: Opening)
        ensures
            opening.handle.is_open(),
            opening.handle.collection() == collection_name@,
            opening.worker.wf(),
            opening.worker@ == initial(collection_name@),
            plan_view(opening.plan@) == promotion(collection_name@, probe),
    {
        Opening {
            handle: SimilaritySearch { collection: collection_name.to_owned(), connected: true },
            worker: Worker::new(collection_name),
            plan: promotion_plan(collection_name, probe),
        }
    }

    /// Whether the handle can queue requests.
    pub fn connected(&self) -> (open: bool)
        ensures
            open == self.is_open(),
    {
        self.connected
    }

    /// Checks that a query may ask for `top_k` neighbours. This needs
    /// neither the provider nor the worker, so a query that asks for too
    /// many is turned down before any work is done.
    pub fn check_top_k(top_k: usize) -> (r: Result<(), SearchError>)
        ensures
            r is Ok <==> top_k <= MAX_NB_CONNECTION,
            r matches Err(error) ==> error@ == SearchErrorView::TopKTooLarge,
    {
        if top_k > MAX_NB_CONNECTION {
            Err(SearchError::TopKTooLarge)
        } else {
            Ok(())
        }
    }

    /// Adds the document `id`, for whose text the provider gave
    /// `embedding`: returns the request to queue. The call does not wait
    /// for the insertion.
    pub fn add(&self, id: i64, embedding: Result<Vec<u32>, String>) -> (r: Result<HnswCommand, SearchError>)
        ensures
            request_view(r) == add_request(self.is_open(), id, embedding_view(embedding)),
    {
        match embedding {
            Err(message) => Err(SearchError::EmbeddingFailed(message)),
            Ok(vector) => {
                if self.connected {
                    Ok(HnswCommand::Add(vector, id as usize))
                } else {
                    Err(SearchError::ChannelClosed)
                }
            },
        }
    }

    /// Asks for the `top_k` nearest neighbours of the text for which the
    /// provider gave `embedding`: returns the request to queue.
    pub fn top_k(&self, embedding: Result<Vec<u32>, String>, top_k: usize) -> (r: Result<HnswCommand, SearchError>)
        ensures
            request_view(r) == lookup_request(self.is_open(), embedding_view(embedding), top_k),
    {
        match Self::check_top_k(top_k) {
            Err(error) => Err(error),
            Ok(_) => match embedding {
                Err(message) => Err(SearchError::EmbeddingFailed(message)),
                Ok(vector) => {
                    if self.connected {
                        Ok(HnswCommand::Lookup(vector, top_k))
                    } else {
                        Err(SearchError::ChannelClosed)
                    }
                },
            },
        }
    }

    /// Turns what came on the reply channel of a query into what the query
    /// returns.
    pub fn receive(reply: Option<Result<Vec<Candidate>, EngineFault>>) -> (r: Result<Vec<Candidate>, SearchError>)
        ensures
            candidates_view(r) == delivered(reply_view(reply)),
    {
        match reply {
            None => Err(SearchError::ChannelClosed),
            Some(Err(fault)) => Err(SearchError::Engine(fault)),
            Some(Ok(candidates)) => Ok(candidates),
        }
    }

    /// Asks for a snapshot: returns the request to queue. The call does not
    /// wait for the snapshot to be written.
    pub fn sync(&self) -> (r: Result<HnswCommand, SearchError>)
        ensures
            request_view(r) == if self.is_open() {
                Ok::<CommandView, SearchErrorView>(CommandView::Save)
            } else {
                Err::<CommandView, SearchErrorView>(SearchErrorView::ChannelClosed)
            },
    {
        if self.connected {
            Ok(HnswCommand::Save)
        } else {
            Err(SearchError::ChannelClosed)
        }
    }

    /// Closes the handle: returns the requests to queue, in this order,
    /// before the caller waits for the task of the worker to end. A handle
    /// that is closed already has nothing left to queue.
    pub fn close(&mut self) -> (last: Vec<HnswCommand>)
        ensures
            !final(self).is_open(),
            final(self).collection() == old(self).collection(),
            commands_view(last@) == teardown(old(self).is_open()),
    {
        let mut last: Vec<HnswCommand> = Vec::new();
        if self.connected {
            last.push(HnswCommand::Save);
            last.push(HnswCommand::Shutdown);
            self.connected = false;
        }
        assert(commands_view(last@) =~= teardown(old(self).is_open()));
        last
    }
}

/// A query returns its candidates by non-decreasing distance, and never
/// more of them than were asked for nor than the index holds: whatever the
/// engine answers to the search, what reaches the caller as a result is
/// the engine's answer, in that order and within those bounds. Asking for
/// more than the largest number of links of a node is an error.
pub proof fn lemma_top_k_is_ranked_and_bounded(
    open: bool,
    embedding: Result<Seq<u32>, Seq<char>>,
    top_k: usize,
    m: WorkerModel,
    raw: Seq<Candidate>,
)
    ensures
        top_k > MAX_NB_CONNECTION ==> lookup_request(open, embedding, top_k) == Err::<CommandView, SearchErrorView>(
            SearchErrorView::TopKTooLarge,
        ),
        delivered(Some(accepted(raw, top_k as nat, m.size()))) matches Ok(candidates) ==> {
            &&& is_ranked(candidates)
            &&& all_distances(candidates)
            &&& candidates.len() <= top_k
            &&& candidates.len() <= m.size()
            &&& candidates == raw
        },
{
}

/// A document id may be used again: whether an insertion is queued does
/// not depend on the id, so a second `add` under an id succeeds where the
/// first did. The worker applies both where the index has room and the
/// vectors have its dimension, and the index then holds two elements under
/// that id.
pub proof fn lemma_repeated_id_is_accepted(m: WorkerModel, id: i64, first: Seq<u32>, second: Seq<u32>)
    requires
        m.wf(),
        m.phase == Phase::Running,
        m.size() + 2 <= MAX_ELEMENTS,
        m.fits(first),
        first.len() == second.len(),
    ensures
        add_request(true, id, Ok(first)) == Ok::<CommandView, SearchErrorView>(
            CommandView::Add(first, id as usize),
        ),
        add_request(true, id, Ok(second)) == Ok::<CommandView, SearchErrorView>(
            CommandView::Add(second, id as usize),
        ),
        ({
            let once = react(m, Some(CommandView::Add(first, id as usize)));
            let twice = react(once.0, Some(CommandView::Add(second, id as usize)));
            &&& once.1 == ActionView::Insert(first, id as usize)
            &&& twice.1 == ActionView::Insert(second, id as usize)
            &&& twice.0.phase == Phase::Running
            &&& twice.0.inserted == m.inserted.push((first, id as usize)).push((second, id as usize))
        }),
{
}

/// A query sees what was added before it on the same handle: the `add`
/// queues an insertion and the `top_k` a lookup, and a running worker with
/// room serves the insertion in full before it hands the lookup to the
/// engine, over an index that then holds the vector under its id. What the
/// caller gets is then the engine's answer, nearest first and one
/// candidate at most where one was asked for.
pub proof fn lemma_query_follows_insertion(m: WorkerModel, id: i64, vector: Seq<u32>, raw: Seq<Candidate>)
    requires
        m.wf(),
        m.phase == Phase::Running,
        m.size() < MAX_ELEMENTS,
        m.fits(vector),
    ensures
        ({
            let added = react(m, Some(CommandView::Add(vector, id as usize)));
            let asked = react(added.0, Some(CommandView::Lookup(vector, 1)));
            &&& add_request(true, id, Ok(vector)) == Ok::<CommandView, SearchErrorView>(
                CommandView::Add(vector, id as usize),
            )
            &&& lookup_request(true, Ok(vector), 1) == Ok::<CommandView, SearchErrorView>(
                CommandView::Lookup(vector, 1),
            )
            &&& added.1 == ActionView::Insert(vector, id as usize)
            &&& asked.1 == ActionView::Search(vector, 1, MAX_NB_CONNECTION)
            &&& asked.0 == added.0
            &&& added.0.inserted.last() == (vector, id as usize)
            &&& added.0.size() == m.size() + 1
            &&& (delivered(Some(accepted(raw, 1, added.0.size()))) matches Ok(candidates) ==> candidates == raw
                && candidates.len() <= 1)
        }),
{
}

/// A collection opened with no snapshot on disk is empty and can be queried
/// at once: the worker runs, a lookup is answered by a search, the empty
/// answer of the engine reaches the caller as an empty result and not as an
/// error, and no other answer reaches the caller as a result.
pub proof fn lemma_fresh_collection_answers_empty(
    collection: Seq<char>,
    vector: Seq<u32>,
    top_k: usize,
    raw: Seq<Candidate>,
)
    requires
        top_k <= MAX_NB_CONNECTION,
    ensures
        ({
            let fresh = begun(initial(collection), None);
            &&& fresh.phase == Phase::Running
            &&& fresh.size() == 0
            &&& lookup_request(true, Ok(vector), top_k) == Ok::<CommandView, SearchErrorView>(
                CommandView::Lookup(vector, top_k),
            )
            &&& react(fresh, Some(CommandView::Lookup(vector, top_k))) == (
                fresh,
                ActionView::Search(vector, top_k, MAX_NB_CONNECTION),
            )
            &&& delivered(Some(accepted(Seq::<Candidate>::empty(), top_k as nat, fresh.size()))) == Ok::<
                Seq<Candidate>,
                SearchErrorView,
            >(Seq::<Candidate>::empty())
            &&& delivered(Some(accepted(raw, top_k as nat, fresh.size()))) matches Ok(candidates)
                ==> candidates.len() == 0
        }),
{
}

} // verus!
