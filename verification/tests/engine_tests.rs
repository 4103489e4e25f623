use hnsw_rs::prelude::{AnnT, DistCosine, Hnsw, HnswIo};
use similarity_search::command::HnswCommand;
use similarity_search::config::{EF_CONSTRUCTION, MAX_ELEMENTS, MAX_LAYERS, MAX_NB_CONNECTION};
use similarity_search::ranking::{Candidate, EngineFault};
use similarity_search::similarity_search::{SearchError, SimilaritySearch};
use similarity_search::snapshot::{
    data_file_name, engine_file_name, graph_file_name, loading_plan, DiskProbe, FsAction, Part,
};
use similarity_search::worker::{LoadedIndex, Phase, Worker, WorkerAction};
use std::path::Path;

const COLLECTION: &str = "test_collection";

type Engine<'a> = Hnsw<'a, f32, DistCosine>;

fn fresh_engine<'a>() -> Engine<'a> {
    Hnsw::new(MAX_NB_CONNECTION, MAX_ELEMENTS, MAX_LAYERS, EF_CONSTRUCTION, DistCosine)
}

fn floats(bits: &[u32]) -> Vec<f32> {
    bits.iter().map(|b| f32::from_bits(*b)).collect()
}

fn bits(values: &[f32]) -> Vec<u32> {
    values.iter().map(|v| v.to_bits()).collect()
}

fn probe(dir: &Path, collection: &str) -> DiskProbe {
    let staged = format!("{}_staged", collection);
    DiskProbe {
        directory_exists: dir.exists(),
        staged_data_exists: dir.join(data_file_name(&staged)).exists(),
        staged_graph_exists: dir.join(graph_file_name(&staged)).exists(),
    }
}

/// Carries a plan out on the directory. A copy is carried out as a move,
/// which puts the same file before the engine.
fn perform(dir: &Path, plan: Vec<FsAction>) {
    for action in plan {
        match action {
            FsAction::CreateDirectory => {
                let name = dir.file_name().unwrap();
                let made = tempfile::Builder::new()
                    .prefix(name)
                    .rand_bytes(0)
                    .tempdir_in(dir.parent().unwrap())
                    .unwrap();
                assert_eq!(made.keep(), dir);
            }
            FsAction::Rename { from, to } | FsAction::Copy { from, to } => {
                assert!(dir.join(&from).exists());
                tempfile::TempPath::from_path(dir.join(from)).persist(dir.join(to)).unwrap();
            }
            FsAction::Remove { file } => tempfile::TempPath::from_path(dir.join(file)).close().unwrap(),
        }
    }
}

/// Serves one command as the task of the worker does, and gives the reply
/// to a lookup.
fn serve(
    worker: &mut Worker,
    engine: &Engine,
    dir: &Path,
    command: HnswCommand,
) -> Option<Result<Vec<Candidate>, EngineFault>> {
    match worker.step(Some(command)) {
        WorkerAction::Insert(vector, id) => {
            engine.insert((&floats(&vector), id));
            None
        }
        WorkerAction::Search(vector, k, width) => {
            let raw: Vec<Candidate> = engine
                .search(&floats(&vector), k, width)
                .iter()
                .map(|n| Candidate { id: n.d_id, distance: n.distance.to_bits() })
                .collect();
            Some(worker.answer(k, raw))
        }
        WorkerAction::Persist(base) => {
            let resolved = engine.file_dump(dir, &base).unwrap();
            assert!(dir.join(engine_file_name(&resolved, Part::Data)).exists());
            assert!(dir.join(engine_file_name(&resolved, Part::Graph)).exists());
            perform(dir, worker.persisted(Some(resolved), probe(dir, COLLECTION)));
            None
        }
        WorkerAction::Drain | WorkerAction::Finish | WorkerAction::Discard | WorkerAction::Idle => None,
        WorkerAction::Abort(fault) => panic!("index worker failed: {:?}", fault),
    }
}

fn query(
    handle: &SimilaritySearch,
    worker: &mut Worker,
    engine: &Engine,
    dir: &Path,
    vector: Vec<u32>,
    k: usize,
) -> Result<Vec<(usize, f32)>, SearchError> {
    let command = handle.top_k(Ok(vector), k)?;
    let reply = serve(worker, engine, dir, command);
    let candidates = SimilaritySearch::receive(reply)?;
    Ok(candidates.iter().map(|c| (c.id, f32::from_bits(c.distance))).collect())
}

fn is_there(dir: &Path, name: &str) -> bool {
    dir.join(name).exists()
}

#[test]
fn test_similarity_search() {
    let temp_dir = tempfile::tempdir().unwrap();
    let db_path = temp_dir.path().join("test.db");
    let db_path = db_path.as_path();
    let collection_name = COLLECTION;
    let embedding = bits(&vec![0.0; 512]);

    let opening = SimilaritySearch::open(collection_name, probe(db_path, collection_name));
    assert_eq!(opening.plan, vec![FsAction::CreateDirectory]);
    perform(db_path, opening.plan);
    assert!(db_path.is_dir());
    let mut index = opening.handle;
    let mut worker = opening.worker;
    assert_eq!(loading_plan(collection_name, false, false), vec![]);
    let engine = fresh_engine();
    worker.begin(None);

    let add = index.add(1, Ok(embedding.clone())).unwrap();
    assert_eq!(serve(&mut worker, &engine, db_path, add), None);
    let candidates = query(&index, &mut worker, &engine, db_path, embedding.clone(), 1).unwrap();
    assert_eq!(candidates, vec![(1, 0.0)]);

    for command in index.close() {
        serve(&mut worker, &engine, db_path, command);
    }
    assert_eq!(worker.step(None), WorkerAction::Finish);
    assert_eq!(worker.phase(), Phase::Stopped);
    assert!(is_there(db_path, "test_collection_staged.idx.data"));
    assert!(is_there(db_path, "test_collection_staged.idx.graph"));
    assert!(!is_there(db_path, "test_collection.idx.data"));
    assert!(!is_there(db_path, "test_collection.idx.graph"));
    drop(engine);

    let opening = SimilaritySearch::open(collection_name, probe(db_path, collection_name));
    assert_eq!(opening.plan.len(), 2);
    perform(db_path, opening.plan);
    assert!(is_there(db_path, "test_collection.idx.data"));
    assert!(is_there(db_path, "test_collection.idx.graph"));
    assert!(!is_there(db_path, "test_collection_staged.idx.data"));
    assert!(!is_there(db_path, "test_collection_staged.idx.graph"));
    let index = opening.handle;
    let mut worker = opening.worker;
    let load = loading_plan(collection_name, true, true);
    assert_eq!(load.len(), 2);
    perform(db_path, load);
    let mut reloader = HnswIo::new(db_path, collection_name);
    let engine: Engine = reloader.load_hnsw().unwrap();
    worker.begin(Some(LoadedIndex { size: engine.get_nb_point(), dimension: Some(512) }));
    assert_eq!(worker.size(), 1);
    let candidates = query(&index, &mut worker, &engine, db_path, embedding, 1).unwrap();
    assert_eq!(candidates, vec![(1, 0.0)]);
}

#[test]
fn second_save_of_a_session_leaves_the_loaded_snapshot_alone() {
    let dir = tempfile::tempdir().unwrap();
    let db_path = dir.path();
    let opening = SimilaritySearch::open(COLLECTION, probe(db_path, COLLECTION));
    let index = opening.handle;
    let mut worker = opening.worker;
    let engine = fresh_engine();
    worker.begin(None);
    let first = index.add(1, Ok(bits(&[1.0, 0.0]))).unwrap();
    serve(&mut worker, &engine, db_path, first);
    serve(&mut worker, &engine, db_path, index.sync().unwrap());
    perform(db_path, SimilaritySearch::open(COLLECTION, probe(db_path, COLLECTION)).plan);
    assert!(is_there(db_path, "test_collection.idx.data"));
    assert!(is_there(db_path, "test_collection.idx.graph"));
    let length = |name: &str| db_path.join(name).metadata().unwrap().len();
    let before = (length("test_collection.idx.data"), length("test_collection.idx.graph"));

    for id in 2..6 {
        let add = index.add(id, Ok(bits(&[0.5, id as f32]))).unwrap();
        serve(&mut worker, &engine, db_path, add);
        serve(&mut worker, &engine, db_path, index.sync().unwrap());
        assert!(is_there(db_path, "test_collection_staged.idx.data"));
        assert!(is_there(db_path, "test_collection_staged.idx.graph"));
        assert_eq!((length("test_collection.idx.data"), length("test_collection.idx.graph")), before);
    }
    assert!(length("test_collection_staged.idx.data") > before.0);
    assert_eq!(worker.phase(), Phase::Running);
    assert_eq!(worker.size(), 5);
}

#[test]
fn engine_answers_are_ranked_and_bounded() {
    let dir = tempfile::tempdir().unwrap();
    let opening = SimilaritySearch::open(COLLECTION, probe(dir.path(), COLLECTION));
    let index = opening.handle;
    let mut worker = opening.worker;
    let engine = fresh_engine();
    worker.begin(None);
    let vectors: Vec<Vec<f32>> = vec![
        vec![1.0, 0.0, 0.0],
        vec![0.9, 0.1, 0.0],
        vec![0.0, 1.0, 0.0],
        vec![0.0, 0.0, 1.0],
        vec![0.5, 0.5, 0.0],
    ];
    for (i, v) in vectors.iter().enumerate() {
        let command = index.add(i as i64 + 1, Ok(bits(v))).unwrap();
        serve(&mut worker, &engine, dir.path(), command);
    }
    assert_eq!(worker.size(), 5);
    let found = query(&index, &mut worker, &engine, dir.path(), bits(&[1.0, 0.0, 0.0]), 3).unwrap();
    assert_eq!(found.len(), 3);
    assert_eq!(found[0].0, 1);
    assert!(found[0].1.abs() < 1.0e-6);
    assert_eq!(found[1].0, 2);
    assert_eq!(found[2].0, 5);
    assert!(found.windows(2).all(|w| w[0].1 <= w[1].1));
    let all = query(&index, &mut worker, &engine, dir.path(), bits(&[0.0, 1.0, 0.0]), 10).unwrap();
    assert!(all.len() <= 5);
    assert_eq!(all[0].0, 3);
    assert!(all.windows(2).all(|w| w[0].1 <= w[1].1));
}

#[test]
fn fresh_collection_is_queryable_at_once() {
    let dir = tempfile::tempdir().unwrap();
    let opening = SimilaritySearch::open(COLLECTION, probe(dir.path(), COLLECTION));
    assert_eq!(opening.plan, vec![]);
    let index = opening.handle;
    let mut worker = opening.worker;
    let engine = fresh_engine();
    worker.begin(None);
    let found = query(&index, &mut worker, &engine, dir.path(), bits(&[0.3, 0.4]), 5);
    assert_eq!(found, Ok(vec![]));
}

#[test]
fn same_id_twice_may_come_back_twice() {
    let dir = tempfile::tempdir().unwrap();
    let opening = SimilaritySearch::open(COLLECTION, probe(dir.path(), COLLECTION));
    let index = opening.handle;
    let mut worker = opening.worker;
    let engine = fresh_engine();
    worker.begin(None);
    for v in [vec![1.0f32, 0.0], vec![0.8, 0.2]] {
        let command = index.add(9, Ok(bits(&v))).unwrap();
        serve(&mut worker, &engine, dir.path(), command);
    }
    assert_eq!(worker.size(), 2);
    let found = query(&index, &mut worker, &engine, dir.path(), bits(&[1.0, 0.0]), 2).unwrap();
    let ids: Vec<usize> = found.iter().map(|c| c.0).collect();
    assert_eq!(ids, vec![9, 9]);
}
