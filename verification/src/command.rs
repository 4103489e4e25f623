//! The vocabulary of the worker.

use vstd::prelude::*;

verus! {

/// A request to the worker. Each is made for one call, handed over through
/// the queue and consumed once. The channel on which the answer to a
/// `Lookup` travels stays with the caller that waits on it.
#[derive(Clone, Debug, PartialEq, Eq)]
pub enum HnswCommand {
    /// Write a snapshot of the index.
    Save,
    /// Insert a vector under a document id.
    Add(Vec<u32>, usize),
    /// Find the given number of nearest neighbours of a vector.
    Lookup(Vec<u32>, usize),
    /// Stop the worker.
    Shutdown,
}

/// A request with its vector as a sequence.
pub enum CommandView {
    Save,
    Add(Seq<u32>, usize),
    Lookup(Seq<u32>, usize),
    Shutdown,
}

impl View for HnswCommand {
    type V = CommandView;

    open spec fn view(&self) -> CommandView {
        match self {
            HnswCommand::Save => CommandView::Save,
            HnswCommand::Add(vector, id) => CommandView::Add(vector@, *id),
            HnswCommand::Lookup(vector, k) => CommandView::Lookup(vector@, *k),
            HnswCommand::Shutdown => CommandView::Shutdown,
        }
    }
}

/// What the worker took from its queue: a request, or nothing because the
/// queue is closed and empty.
pub open spec fn received_view(received: Option<HnswCommand>) -> Option<CommandView> {
    match received {
        Some(command) => Some(command@),
        None => None,
    }
}

/// The requests of a list, each by its view.
pub open spec fn commands_view(commands: Seq<HnswCommand>) -> Seq<CommandView> {
    commands.map_values(|c: HnswCommand| c@)
}

} // verus!
