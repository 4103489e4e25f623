use similarity_search::snapshot::{
    data_file_name, engine_file_name, graph_file_name, loading_plan, promotion_plan, staged_name,
    staging_plan, DiskProbe, FsAction, Part,
};

fn remove(file: &str) -> FsAction {
    FsAction::Remove { file: file.to_string() }
}

fn copy(from: &str, to: &str) -> FsAction {
    FsAction::Copy { from: from.to_string(), to: to.to_string() }
}

fn rename(from: &str, to: &str) -> FsAction {
    FsAction::Rename { from: from.to_string(), to: to.to_string() }
}

#[test]
fn file_names_of_a_collection() {
    assert_eq!(data_file_name("activity_vectors"), "activity_vectors.idx.data");
    assert_eq!(graph_file_name("activity_vectors"), "activity_vectors.idx.graph");
    assert_eq!(staged_name("activity_vectors"), "activity_vectors_staged");
    assert_eq!(data_file_name(&staged_name("c")), "c_staged.idx.data");
    assert_eq!(graph_file_name(&staged_name("c")), "c_staged.idx.graph");
}

#[test]
fn absent_directory_is_created() {
    let probe = DiskProbe { directory_exists: false, staged_data_exists: false, staged_graph_exists: false };
    assert_eq!(promotion_plan("test_collection", probe), vec![FsAction::CreateDirectory]);
}

#[test]
fn nothing_to_do_when_nothing_is_staged() {
    let probe = DiskProbe { directory_exists: true, staged_data_exists: false, staged_graph_exists: false };
    assert_eq!(promotion_plan("test_collection", probe), vec![]);
}

#[test]
fn staged_snapshot_is_promoted() {
    let probe = DiskProbe { directory_exists: true, staged_data_exists: true, staged_graph_exists: true };
    assert_eq!(
        promotion_plan("test_collection", probe),
        vec![
            rename("test_collection_staged.idx.data", "test_collection.idx.data"),
            rename("test_collection_staged.idx.graph", "test_collection.idx.graph"),
        ]
    );
}

#[test]
fn staged_data_alone_is_left_alone() {
    let data_only = DiskProbe { directory_exists: true, staged_data_exists: true, staged_graph_exists: false };
    assert_eq!(promotion_plan("c", data_only), vec![]);
}

#[test]
fn promotion_cut_short_is_taken_up_again() {
    let graph_only = DiskProbe { directory_exists: true, staged_data_exists: false, staged_graph_exists: true };
    assert_eq!(promotion_plan("c", graph_only), vec![rename("c_staged.idx.graph", "c.idx.graph")]);
}

#[test]
fn creation_comes_before_promotion() {
    let probe = DiskProbe { directory_exists: false, staged_data_exists: true, staged_graph_exists: true };
    assert_eq!(
        promotion_plan("c", probe),
        vec![
            FsAction::CreateDirectory,
            rename("c_staged.idx.data", "c.idx.data"),
            rename("c_staged.idx.graph", "c.idx.graph"),
        ]
    );
}

const NOTHING_STAGED: DiskProbe =
    DiskProbe { directory_exists: true, staged_data_exists: false, staged_graph_exists: false };

const SNAPSHOT_STAGED: DiskProbe =
    DiskProbe { directory_exists: true, staged_data_exists: true, staged_graph_exists: true };

#[test]
fn written_snapshot_is_staged() {
    assert_eq!(
        staging_plan("test_collection", "test_collection_staged-1234", NOTHING_STAGED),
        vec![
            rename("test_collection_staged-1234.hnsw.data", "test_collection_staged.idx.data"),
            rename("test_collection_staged-1234.hnsw.graph", "test_collection_staged.idx.graph"),
        ]
    );
}

#[test]
fn staged_data_alone_is_written_over() {
    let data_only = DiskProbe { directory_exists: true, staged_data_exists: true, staged_graph_exists: false };
    assert_eq!(
        staging_plan("c", "w", data_only),
        vec![rename("w.hnsw.data", "c_staged.idx.data"), rename("w.hnsw.graph", "c_staged.idx.graph")]
    );
}

#[test]
fn second_save_clears_the_staged_graph_first() {
    assert_eq!(
        staging_plan("c", "w", SNAPSHOT_STAGED),
        vec![
            remove("c_staged.idx.graph"),
            rename("w.hnsw.data", "c_staged.idx.data"),
            rename("w.hnsw.graph", "c_staged.idx.graph"),
        ]
    );
    let graph_only = DiskProbe { directory_exists: true, staged_data_exists: false, staged_graph_exists: true };
    assert_eq!(
        staging_plan("c", "w", graph_only),
        vec![
            remove("c_staged.idx.graph"),
            rename("w.hnsw.data", "c_staged.idx.data"),
            rename("w.hnsw.graph", "c_staged.idx.graph"),
        ]
    );
}

#[test]
fn save_names_no_canonical_file() {
    let canonical = ["activity_vectors.idx.data".to_string(), "activity_vectors.idx.graph".to_string()];
    for staged_data_exists in [false, true] {
        for staged_graph_exists in [false, true] {
            let probe = DiskProbe { directory_exists: true, staged_data_exists, staged_graph_exists };
            for base in ["activity_vectors_staged", "activity_vectors", "activity_vectors.idx", ""] {
                let plan = staging_plan("activity_vectors", base, probe);
                for action in &plan {
                    let names: Vec<&String> = match action {
                        FsAction::CreateDirectory => vec![],
                        FsAction::Rename { from, to } => vec![from, to],
                        FsAction::Remove { file } => vec![file],
                        FsAction::Copy { from, to } => vec![from, to],
                    };
                    assert!(names.iter().all(|name| !canonical.contains(name)));
                }
                let n = plan.len();
                assert_eq!(
                    plan[n - 2],
                    rename(&format!("{}.hnsw.data", base), "activity_vectors_staged.idx.data")
                );
                assert_eq!(
                    plan[n - 1],
                    rename(&format!("{}.hnsw.graph", base), "activity_vectors_staged.idx.graph")
                );
            }
        }
    }
}

#[test]
fn engine_names_its_files_itself() {
    assert_eq!(engine_file_name("c_staged", Part::Data), "c_staged.hnsw.data");
    assert_eq!(engine_file_name("c_staged", Part::Graph), "c_staged.hnsw.graph");
    assert_eq!(engine_file_name("a.idx.b", Part::Data), "a.idx.b.hnsw.data");
    assert_eq!(engine_file_name("", Part::Graph), ".hnsw.graph");
}

#[test]
fn whole_canonical_snapshot_is_put_before_the_engine() {
    assert_eq!(
        loading_plan("c", true, true),
        vec![copy("c.idx.data", "c.hnsw.data"), copy("c.idx.graph", "c.hnsw.graph")]
    );
    assert_eq!(
        loading_plan("a.idx.b", true, true),
        vec![copy("a.idx.b.idx.data", "a.idx.b.hnsw.data"), copy("a.idx.b.idx.graph", "a.idx.b.hnsw.graph")]
    );
}

#[test]
fn half_a_canonical_snapshot_is_not_loaded() {
    assert_eq!(loading_plan("c", true, false), vec![]);
    assert_eq!(loading_plan("c", false, true), vec![]);
    assert_eq!(loading_plan("c", false, false), vec![]);
}

#[test]
fn data_file_always_moves_first() {
    for plan in [staging_plan("c", "w", NOTHING_STAGED), promotion_plan("c", SNAPSHOT_STAGED)] {
        match (&plan[0], &plan[1]) {
            (FsAction::Rename { to: first, .. }, FsAction::Rename { to: second, .. }) => {
                assert!(first.ends_with(".idx.data"));
                assert!(second.ends_with(".idx.graph"));
            }
            _ => panic!("a snapshot is moved by renames only"),
        }
    }
}

#[test]
fn staging_feeds_promotion() {
    let staged = staging_plan("c", "c_staged", NOTHING_STAGED);
    let promoted = promotion_plan("c", SNAPSHOT_STAGED);
    assert_eq!(staged.len(), 2);
    assert_eq!(promoted.len(), 2);
    for (s, p) in staged.iter().zip(promoted.iter()) {
        match (s, p) {
            (FsAction::Rename { to, .. }, FsAction::Rename { from, .. }) => assert_eq!(to, from),
            _ => panic!("a snapshot is moved by renames only"),
        }
    }
}

/// A directory in memory: for each file name, the number of the save that
/// wrote the file.
type Files = std::collections::BTreeMap<String, u32>;

fn probe_of(files: &Files, collection: &str) -> DiskProbe {
    let staged = staged_name(collection);
    DiskProbe {
        directory_exists: true,
        staged_data_exists: files.contains_key(&data_file_name(&staged)),
        staged_graph_exists: files.contains_key(&graph_file_name(&staged)),
    }
}

/// Carries out the first `steps` steps of a plan.
fn run(files: &mut Files, plan: &[FsAction], steps: usize) {
    for action in plan.iter().take(steps) {
        match action {
            FsAction::CreateDirectory => {}
            FsAction::Rename { from, to } => {
                let content = files.remove(from).expect("a plan renames files that are there");
                files.insert(to.clone(), content);
            }
            FsAction::Remove { file } => {
                files.remove(file).expect("a plan removes files that are there");
            }
            FsAction::Copy { from, to } => {
                let content = *files.get(from).expect("a plan copies files that are there");
                files.insert(to.clone(), content);
            }
        }
    }
}

fn canonical(files: &Files, collection: &str) -> (Option<u32>, Option<u32>) {
    (files.get(&data_file_name(collection)).copied(), files.get(&graph_file_name(collection)).copied())
}

/// A save that stops after `steps` steps. The canonical files are as they
/// were, however far it came.
fn save(files: &mut Files, collection: &str, number: u32, steps: usize) -> usize {
    let before = canonical(files, collection);
    files.insert(engine_file_name("w", Part::Data), number);
    files.insert(engine_file_name("w", Part::Graph), number);
    let plan = staging_plan(collection, "w", probe_of(files, collection));
    run(files, &plan, steps.min(plan.len()));
    assert_eq!(canonical(files, collection), before);
    plan.len()
}

fn open(files: &mut Files, collection: &str, steps: usize) -> usize {
    let plan = promotion_plan(collection, probe_of(files, collection));
    run(files, &plan, steps.min(plan.len()));
    plan.len()
}

#[test]
fn saved_snapshot_is_the_one_loaded() {
    let mut files = Files::new();
    assert_eq!(open(&mut files, "c", 9), 0);
    assert_eq!(canonical(&files, "c"), (None, None));
    save(&mut files, "c", 1, 9);
    assert_eq!(canonical(&files, "c"), (None, None));
    open(&mut files, "c", 9);
    assert_eq!(canonical(&files, "c"), (Some(1), Some(1)));
    save(&mut files, "c", 2, 9);
    assert_eq!(canonical(&files, "c"), (Some(1), Some(1)));
    save(&mut files, "c", 3, 9);
    assert_eq!(canonical(&files, "c"), (Some(1), Some(1)));
    assert_eq!(files.get("c_staged.idx.data"), Some(&3));
    assert_eq!(files.get("c_staged.idx.graph"), Some(&3));
    open(&mut files, "c", 9);
    assert_eq!(canonical(&files, "c"), (Some(3), Some(3)));
    assert_eq!(files.len(), 2);
    let plan = loading_plan("c", files.contains_key("c.idx.data"), files.contains_key("c.idx.graph"));
    run(&mut files, &plan, 9);
    assert_eq!(files.get("c.hnsw.data"), Some(&3));
    assert_eq!(files.get("c.hnsw.graph"), Some(&3));
}

#[test]
fn crash_at_any_step_leaves_a_whole_snapshot() {
    // Three sessions in a row. In each, an open may be cut short before the
    // open that is carried through, and two saves follow, each cut short
    // after 0 to 3 steps. At the end an open is carried through.
    for code in 0..(48 * 48 * 48) {
        let mut files = Files::new();
        let mut rest = code;
        let mut number = 0;
        for _session in 0..3 {
            let choice = rest % 48;
            rest /= 48;
            open(&mut files, "c", choice % 3);
            open(&mut files, "c", 9);
            let (data, graph) = canonical(&files, "c");
            assert_eq!(data, graph, "after operations {}", code);
            for steps in [(choice / 3) % 4, choice / 12] {
                number += 1;
                save(&mut files, "c", number, steps);
            }
        }
        open(&mut files, "c", 9);
        let (data, graph) = canonical(&files, "c");
        assert_eq!(data, graph, "after operations {}", code);
        assert!(!files.contains_key("c_staged.idx.graph"));
        assert_eq!(open(&mut files, "c", 9), 0);
    }
}
