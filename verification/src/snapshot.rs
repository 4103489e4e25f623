//! Names of the snapshot files of a collection, and the steps by which a
//! snapshot is staged, promoted and loaded.
//!
//! A snapshot is two companion files, one for the data of the nodes and one
//! for the edges of the graph. The engine writes both under names of its
//! own. A save gives both the staged name and touches no canonical file. An
//! open gives the staged files the canonical name, from which the snapshot
//! is loaded. Each file is moved by one rename, the data file always first,
//! so that whatever is found after a crash tells how far the work had come.

use vstd::prelude::*;
use vstd::string::*;

verus! {

/// The base name under which a save stages the snapshot of `collection`.
pub open spec fn staged_base(collection: Seq<char>) -> Seq<char> {
    collection + "_staged"@
}

/// The name of the file that holds the data of the nodes.
pub open spec fn data_file(base: Seq<char>) -> Seq<char> {
    base + ".idx.data"@
}

/// The name of the file that holds the edges of the graph.
pub open spec fn graph_file(base: Seq<char>) -> Seq<char> {
    base + ".idx.graph"@
}

/// One step on the directory of the collection. File names are relative to
/// that directory.
#[derive(Clone, Debug, PartialEq, Eq)]
pub enum FsAction {
    /// Create the directory, with the directories above it.
    CreateDirectory,
    /// Give the file `from` the name `to`, in place of any file of that
    /// name.
    Rename { from: String, to: String },
    /// Remove the file.
    Remove { file: String },
    /// Copy the file `from` to the name `to`, in place of any file of that
    /// name.
    Copy { from: String, to: String },
}

/// A step with its file names as sequences of characters.
pub enum FsActionView {
    CreateDirectory,
    Rename { from: Seq<char>, to: Seq<char> },
    Remove { file: Seq<char> },
    Copy { from: Seq<char>, to: Seq<char> },
}

impl View for FsAction {
    type V = FsActionView;

    open spec fn view(&self) -> FsActionView {
        match self {
            FsAction::CreateDirectory => FsActionView::CreateDirectory,
            FsAction::Rename { from, to } => FsActionView::Rename { from: from@, to: to@ },
            FsAction::Remove { file } => FsActionView::Remove { file: file@ },
            FsAction::Copy { from, to } => FsActionView::Copy { from: from@, to: to@ },
        }
    }
}

/// The steps of a plan, each by its view.
pub open spec fn plan_view(plan: Seq<FsAction>) -> Seq<FsActionView> {
    plan.map_values(|a: FsAction| a@)
}

/// The step changes the file of this name, or what the name stands for: it
/// removes or renames the file, or puts another in its place.
pub open spec fn changes(action: FsActionView, file: Seq<char>) -> bool {
    match action {
        FsActionView::CreateDirectory => false,
        FsActionView::Rename { from, to } => from == file || to == file,
        FsActionView::Remove { file: removed } => removed == file,
        FsActionView::Copy { from, to } => to == file,
    }
}

/// What was found on disk before the snapshot files are touched.
#[derive(Clone, Copy, Debug, PartialEq, Eq)]
pub struct DiskProbe {
    pub directory_exists: bool,
    pub staged_data_exists: bool,
    pub staged_graph_exists: bool,
}

/// One of the two files of a snapshot.
#[derive(Clone, Copy, Debug, PartialEq, Eq)]
pub enum Part {
    Data,
    Graph,
}

/// The name of one file of the snapshot with base name `base`.
pub open spec fn file_of(base: Seq<char>, part: Part) -> Seq<char> {
    match part {
        Part::Data => data_file(base),
        Part::Graph => graph_file(base),
    }
}

/// The name that the engine gives to one file of a snapshot that it writes
/// or reads under the base name `base`.
pub open spec fn engine_file(base: Seq<char>, part: Part) -> Seq<char> {
    match part {
        Part::Data => base + ".hnsw.data"@,
        Part::Graph => base + ".hnsw.graph"@,
    }
}

/// The rename that promotes one file of the staged snapshot of
/// `collection`.
pub open spec fn promoting(collection: Seq<char>, part: Part) -> FsActionView {
    FsActionView::Rename { from: file_of(staged_base(collection), part), to: file_of(collection, part) }
}

/// The rename that stages, for `collection`, one file that the engine wrote
/// under the base name `written`.
pub open spec fn staging_of(collection: Seq<char>, written: Seq<char>, part: Part) -> FsActionView {
    FsActionView::Rename { from: engine_file(written, part), to: file_of(staged_base(collection), part) }
}

/// The renames that bring the canonical snapshot up to date. A staged
/// snapshot whose two files are there is promoted, the data file first. A
/// staged graph file alone is what a promotion leaves that was cut short
/// after its first rename: it is promoted too. A staged data file alone is
/// what a save leaves that was cut short: it is no snapshot and stays where
/// it is.
pub open spec fn recovery(collection: Seq<char>, probe: DiskProbe) -> Seq<FsActionView> {
    if probe.staged_graph_exists {
        if probe.staged_data_exists {
            seq![promoting(collection, Part::Data), promoting(collection, Part::Graph)]
        } else {
            seq![promoting(collection, Part::Graph)]
        }
    } else {
        Seq::empty()
    }
}

/// The steps to take before the snapshot of `collection` is loaded: the
/// directory is created if it is missing, then the canonical snapshot is
/// brought up to date.
pub open spec fn promotion(collection: Seq<char>, probe: DiskProbe) -> Seq<FsActionView> {
    let create = if probe.directory_exists {
        Seq::<FsActionView>::empty()
    } else {
        seq![FsActionView::CreateDirectory]
    };
    create + recovery(collection, probe)
}

/// The step that makes room for a new staged snapshot: the graph file of
/// an earlier save, if one is staged, is removed. The data file that stays
/// behind is no snapshot by itself.
pub open spec fn clearing(collection: Seq<char>, probe: DiskProbe) -> Seq<FsActionView> {
    if probe.staged_graph_exists {
        seq![FsActionView::Remove { file: file_of(staged_base(collection), Part::Graph) }]
    } else {
        Seq::empty()
    }
}

/// The steps to take after the engine has written a snapshot of
/// `collection` under the base name `written`: room is made, then the
/// written files are staged, the data file first.
pub open spec fn staging(collection: Seq<char>, written: Seq<char>, probe: DiskProbe) -> Seq<FsActionView> {
    clearing(collection, probe) + seq![
        staging_of(collection, written, Part::Data),
        staging_of(collection, written, Part::Graph),
    ]
}

/// The steps that put the canonical snapshot of `collection` where the
/// engine reads it. Only a snapshot whose two files are there is one: with
/// a file missing nothing is loaded.
pub open spec fn loading(collection: Seq<char>, data_exists: bool, graph_exists: bool) -> Seq<FsActionView> {
    if data_exists && graph_exists {
        seq![
            FsActionView::Copy { from: file_of(collection, Part::Data), to: engine_file(collection, Part::Data) },
            FsActionView::Copy { from: file_of(collection, Part::Graph), to: engine_file(collection, Part::Graph) },
        ]
    } else {
        Seq::empty()
    }
}

/// The four files of a collection, staged and canonical, have four
/// different names, and no file of the engine has the name of one of them:
/// no step on one of these files touches another.
pub proof fn lemma_names_are_distinct(collection: Seq<char>)
    ensures
        file_of(collection, Part::Data) != file_of(collection, Part::Graph),
        file_of(staged_base(collection), Part::Data) != file_of(staged_base(collection), Part::Graph),
        forall|a: Part, b: Part| file_of(staged_base(collection), a) != file_of(collection, b),
        forall|written: Seq<char>, base: Seq<char>, a: Part, b: Part|
            #[trigger] engine_file(written, a) != #[trigger] file_of(base, b),
{
    reveal_strlit("_staged");
    reveal_strlit(".idx.data");
    reveal_strlit(".idx.graph");
    assert(file_of(collection, Part::Data).len() == collection.len() + 9);
    assert(file_of(collection, Part::Graph).len() == collection.len() + 10);
    assert(file_of(staged_base(collection), Part::Data).len() == collection.len() + 16);
    assert(file_of(staged_base(collection), Part::Graph).len() == collection.len() + 17);
    assert forall|a: Part, b: Part| file_of(staged_base(collection), a) != file_of(collection, b) by {
        assert(file_of(staged_base(collection), a).len() >= collection.len() + 16);
        assert(file_of(collection, b).len() <= collection.len() + 10);
    }
    assert forall|written: Seq<char>, base: Seq<char>, a: Part, b: Part|
        #[trigger] engine_file(written, a) != #[trigger] file_of(base, b) by {
        lemma_engine_names_are_its_own(written, base, a, b);
    }
}

/// The engine's names end otherwise than the names of this library.
proof fn lemma_engine_names_are_its_own(written: Seq<char>, base: Seq<char>, a: Part, b: Part)
    ensures
        engine_file(written, a) != file_of(base, b),
{
    reveal_strlit(".idx.data");
    reveal_strlit(".idx.graph");
    reveal_strlit(".hnsw.data");
    reveal_strlit(".hnsw.graph");
    let e = engine_file(written, a);
    let f = file_of(base, b);
    let n: int = e.len() as int;
    if e == f {
        match (a, b) {
            (Part::Data, Part::Data) => {
                assert(e[n - 6] == 'w');
                assert(f[n - 6] == 'x');
            },
            (Part::Graph, Part::Graph) => {
                assert(e[n - 7] == 'w');
                assert(f[n - 7] == 'x');
            },
            (Part::Data, Part::Graph) => {
                assert(e[n - 1] == 'a');
                assert(f[n - 1] == 'h');
            },
            (Part::Graph, Part::Data) => {
                assert(e[n - 1] == 'h');
                assert(f[n - 1] == 'a');
            },
        }
    }
}

/// A save leaves the canonical snapshot alone: no step of its plan
/// removes, renames or replaces a canonical file, whatever is staged and
/// under whatever name the engine wrote. The plan ends with the two
/// renames that stage the written files.
pub proof fn lemma_save_leaves_canonical_files_alone(collection: Seq<char>, written: Seq<char>, probe: DiskProbe)
    ensures
        forall|i: int, part: Part|
            0 <= i < staging(collection, written, probe).len() ==> !changes(
                #[trigger] staging(collection, written, probe)[i],
                #[trigger] file_of(collection, part),
            ),
        staging(collection, written, probe).len() >= 2,
        staging(collection, written, probe)[staging(collection, written, probe).len() - 2] == staging_of(
            collection,
            written,
            Part::Data,
        ),
        staging(collection, written, probe).last() == staging_of(collection, written, Part::Graph),
{
    lemma_names_are_distinct(collection);
    let plan = staging(collection, written, probe);
    assert forall|i: int, part: Part| 0 <= i < plan.len() implies !changes(
        #[trigger] plan[i],
        #[trigger] file_of(collection, part),
    ) by {
        let canonical = file_of(collection, part);
        assert(engine_file(written, Part::Data) != canonical);
        assert(engine_file(written, Part::Graph) != canonical);
        assert(file_of(staged_base(collection), Part::Data) != canonical);
        assert(file_of(staged_base(collection), Part::Graph) != canonical);
    }
}

/// The base name under which a save stages the snapshot of `collection`.
pub fn staged_name(collection: &str) -> (r: String)
    ensures
        r@ == staged_base(collection@),
{
    String::from_str(collection).concat("_staged")
}

/// The name of the data file of the snapshot with base name `base`.
pub fn data_file_name(base: &str) -> (r: String)
    ensures
        r@ == data_file(base@),
{
    String::from_str(base).concat(".idx.data")
}

/// The name of the graph file of the snapshot with base name `base`.
pub fn graph_file_name(base: &str) -> (r: String)
    ensures
        r@ == graph_file(base@),
{
    String::from_str(base).concat(".idx.graph")
}

/// The name that the engine gives to one file of a snapshot with base name
/// `base`.
pub fn engine_file_name(base: &str, part: Part) -> (r: String)
    ensures
        r@ == engine_file(base@, part),
        part == Part::Data ==> r@ == base@ + ".hnsw.data"@,
        part == Part::Graph ==> r@ == base@ + ".hnsw.graph"@,
{
    match part {
        Part::Data => String::from_str(base).concat(".hnsw.data"),
        Part::Graph => String::from_str(base).concat(".hnsw.graph"),
    }
}

fn file_name(base: &str, part: Part) -> (r: String)
    ensures
        r@ == file_of(base@, part),
{
    match part {
        Part::Data => data_file_name(base),
        Part::Graph => graph_file_name(base),
    }
}

fn push_promoting(plan: &mut Vec<FsAction>, collection: &str, part: Part)
    ensures
        plan_view(final(plan)@) == plan_view(old(plan)@).push(promoting(collection@, part)),
{
    let ghost before = plan_view(plan@);
    let staged = staged_name(collection);
    plan.push(FsAction::Rename { from: file_name(staged.as_str(), part), to: file_name(collection, part) });
    assert(plan_view(plan@) =~= before.push(promoting(collection@, part)));
}

fn push_staging(plan: &mut Vec<FsAction>, collection: &str, written: &str, part: Part)
    ensures
        plan_view(final(plan)@) == plan_view(old(plan)@).push(staging_of(collection@, written@, part)),
{
    let ghost before = plan_view(plan@);
    let staged = staged_name(collection);
    plan.push(FsAction::Rename { from: engine_file_name(written, part), to: file_name(staged.as_str(), part) });
    assert(plan_view(plan@) =~= before.push(staging_of(collection@, written@, part)));
}

fn push_copy(plan: &mut Vec<FsAction>, collection: &str, part: Part)
    ensures
        plan_view(final(plan)@) == plan_view(old(plan)@).push(
            (FsActionView::Copy { from: file_of(collection@, part), to: engine_file(collection@, part) }),
        ),
{
    let ghost before = plan_view(plan@);
    plan.push(FsAction::Copy { from: file_name(collection, part), to: engine_file_name(collection, part) });
    assert(plan_view(plan@) =~= before.push(
        (FsActionView::Copy { from: file_of(collection@, part), to: engine_file(collection@, part) }),
    ));
}

/// Plans the steps to take before the snapshot of `collection_name` is
/// loaded; `probe` says what is on disk.
pub fn promotion_plan(collection_name: &str, probe: DiskProbe) -> (plan: Vec<FsAction>)
    ensures
        plan_view(plan@) == promotion(collection_name@, probe),
{
    let mut plan: Vec<FsAction> = Vec::new();
    if !probe.directory_exists {
        plan.push(FsAction::CreateDirectory);
    }
    let ghost create = plan_view(plan@);
    assert(create =~= if probe.directory_exists {
        Seq::<FsActionView>::empty()
    } else {
        seq![FsActionView::CreateDirectory]
    });
    if probe.staged_graph_exists {
        if probe.staged_data_exists {
            push_promoting(&mut plan, collection_name, Part::Data);
        }
        push_promoting(&mut plan, collection_name, Part::Graph);
    }
    assert(plan_view(plan@) =~= create + recovery(collection_name@, probe));
    plan
}

/// Plans the steps to take after the engine has written a snapshot of
/// `collection_name` under the base name `written`; `probe` says what is
/// staged at that time. No step of the plan changes a canonical file.
pub fn staging_plan(collection_name: &str, written: &str, probe: DiskProbe) -> (plan: Vec<FsAction>)
    ensures
        plan_view(plan@) == staging(collection_name@, written@, probe),
        forall|i: int, part: Part|
            0 <= i < plan@.len() ==> !changes(
                #[trigger] plan_view(plan@)[i],
                #[trigger] file_of(collection_name@, part),
            ),
        plan@.len() >= 2,
        plan@[plan@.len() - 2]@ == staging_of(collection_name@, written@, Part::Data),
        plan@[plan@.len() - 1]@ == staging_of(collection_name@, written@, Part::Graph),
{
    let mut plan: Vec<FsAction> = Vec::new();
    if probe.staged_graph_exists {
        let staged = staged_name(collection_name);
        plan.push(FsAction::Remove { file: file_name(staged.as_str(), Part::Graph) });
    }
    assert(plan_view(plan@) =~= clearing(collection_name@, probe));
    push_staging(&mut plan, collection_name, written, Part::Data);
    push_staging(&mut plan, collection_name, written, Part::Graph);
    proof {
        assert(plan_view(plan@) =~= staging(collection_name@, written@, probe));
        lemma_save_leaves_canonical_files_alone(collection_name@, written@, probe);
        assert(plan_view(plan@).len() == plan@.len());
        assert(plan_view(plan@)[plan@.len() - 2] == plan@[plan@.len() - 2]@);
        assert(plan_view(plan@)[plan@.len() - 1] == plan@[plan@.len() - 1]@);
    }
    plan
}

/// Plans the steps that put the canonical snapshot of `collection_name`
/// where the engine reads it, given which of its two files are there. An
/// empty plan says that there is no snapshot to load.
pub fn loading_plan(collection_name: &str, data_exists: bool, graph_exists: bool) -> (plan: Vec<FsAction>)
    ensures
        plan_view(plan@) == loading(collection_name@, data_exists, graph_exists),
{
    let mut plan: Vec<FsAction> = Vec::new();
    assert(plan_view(plan@) =~= Seq::<FsActionView>::empty());
    if data_exists && graph_exists {
        push_copy(&mut plan, collection_name, Part::Data);
        push_copy(&mut plan, collection_name, Part::Graph);
    }
    assert(plan_view(plan@) =~= loading(collection_name@, data_exists, graph_exists));
    plan
}

} // verus!
