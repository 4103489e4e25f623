//! How the text of an activity enters the index.

use vstd::prelude::*;
use vstd::string::*;
use crate::command::{commands_view, CommandView, HnswCommand};
use crate::entity::ActivityItem;
use crate::similarity_search::{add_request, embedding_view, SearchError, SearchErrorView, SimilaritySearch};

verus! {

/// Largest number of characters of the text of an activity that enter the
/// index.
pub const MAX_INDEXED_CHARS: usize = 5000;

/// The text under which an activity is indexed: the beginning of its full
/// text, with the title of its window before and after it, so that the
/// title weighs in the embedding.
pub open spec fn amplified(window_title: Seq<char>, full_text: Seq<char>) -> Seq<char> {
    let kept = if full_text.len() > MAX_INDEXED_CHARS {
        full_text.subrange(0, MAX_INDEXED_CHARS as int)
    } else {
        full_text
    };
    "Document Title: ["@ + window_title + "] "@ + kept + " Document Title: ["@ + window_title + "]"@
}

/// Builds the text under which an activity is indexed.
pub fn amplified_text(activity_item: &ActivityItem) -> (text: String)
    ensures
        text@ == amplified(activity_item.window_title@, activity_item.full_activity_text@),
{
    let full_text = activity_item.full_activity_text.as_str();
    let kept = if full_text.unicode_len() > MAX_INDEXED_CHARS {
        full_text.substring_char(0, MAX_INDEXED_CHARS)
    } else {
        full_text
    };
    let title = activity_item.window_title.as_str();
    String::from_str("Document Title: [").concat(title).concat("] ").concat(kept).concat(
        " Document Title: [",
    ).concat(title).concat("]")
}

/// What saving an activity queues: the insertion of its embedding under the
/// id of its row, then a save.
pub open spec fn save_requests(open: bool, id: i64, embedding: Result<Seq<u32>, Seq<char>>) -> Result<
    Seq<CommandView>,
    SearchErrorView,
> {
    match add_request(open, id, embedding) {
        Ok(add) => Ok(seq![add, CommandView::Save]),
        Err(error) => Err(error),
    }
}

/// The requests of a save, or its error, by their views.
pub open spec fn requests_view(r: Result<Vec<HnswCommand>, SearchError>) -> Result<
    Seq<CommandView>,
    SearchErrorView,
> {
    match r {
        Ok(commands) => Ok(commands_view(commands@)),
        Err(error) => Err(error@),
    }
}

/// Saves the text of an activity into the index: `last_insert_rowid` is
/// the id of its row, and `embedding` what the provider gave for its
/// amplified text. Returns the requests to queue, in this order.
pub fn save_activity_full_text_into_vector_db(
    db: &SimilaritySearch,
    last_insert_rowid: i64,
    embedding: Result<Vec<u32>, String>,
) -> (r: Result<Vec<HnswCommand>, SearchError>)
    ensures
        requests_view(r) == save_requests(db.is_open(), last_insert_rowid, embedding_view(embedding)),
{
    match db.add(last_insert_rowid, embedding) {
        Err(error) => Err(error),
        Ok(add) => match db.sync() {
            Err(error) => Err(error),
            Ok(save) => {
                let mut commands: Vec<HnswCommand> = Vec::new();
                commands.push(add);
                commands.push(save);
                assert(commands_view(commands@) =~= seq![add@, CommandView::Save]);
                Ok(commands)
            },
        },
    }
}

} // verus!
