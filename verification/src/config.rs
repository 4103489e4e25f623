//! Fixed parameters of the index service.

use vstd::prelude::*;

verus! {

/// Default number of neighbours returned by a query.
pub const TOPK: usize = 10;

/// Largest number of links a node of the graph keeps, which is also the
/// search width of every query and the largest `k` a caller may ask for.
pub const MAX_NB_CONNECTION: usize = TOPK;

/// Largest number of elements the index may hold.
pub const MAX_ELEMENTS: usize = 100_000;

/// Largest number of layers of the graph.
pub const MAX_LAYERS: usize = 24;

/// Search width used while the graph is built.
pub const EF_CONSTRUCTION: usize = 400;

/// Number of commands that may wait in the queue of the worker.
pub const MAX_INFLIGHT_COMMANDS: usize = 100;

/// Largest number of characters of a document handed to the embedding
/// provider.
pub const MAX_CHARS: usize = 7900;

} // verus!
