use vector_ingest::dispatcher::{rows_for_document, Dispatcher, EmbedError, EmbeddedRow};
use vector_ingest::writer::{validate_rows, IndexSpec, TableWriter, WriterError, WriterStage};

fn vectors(n: usize, dims: usize) -> Vec<Vec<u32>> {
    let mut out = Vec::new();
    for i in 0..n {
        out.push(vec![i as u32; dims]);
    }
    out
}

#[test]
fn one_row_per_chunk_with_ordinals() {
    let chunks = vec!["first".to_string(), "second".to_string()];
    let rows = rows_for_document(
        &"doc-1".to_string(),
        &"{\"k\":1}".to_string(),
        &chunks,
        &vectors(2, 3),
        3,
    )
    .unwrap();
    assert_eq!(rows.len(), 2);
    for (i, row) in rows.iter().enumerate() {
        assert_eq!(row.id, "doc-1");
        assert_eq!(row.metadata, "{\"k\":1}");
        assert_eq!(row.text, chunks[i]);
        assert_eq!(row.ordinal, i);
        assert_eq!(row.vector.len(), 3);
        assert_eq!(row.dims, 3);
    }
}

#[test]
fn empty_id_is_rejected() {
    let r = rows_for_document(
        &String::new(),
        &"{}".to_string(),
        &vec!["a".to_string()],
        &vectors(1, 3),
        3,
    );
    assert_eq!(r.unwrap_err(), EmbedError::EmptyId);
}

#[test]
fn wrong_vector_count_is_rejected() {
    let r = rows_for_document(
        &"doc".to_string(),
        &"{}".to_string(),
        &vec!["a".to_string(), "b".to_string()],
        &vectors(1, 3),
        3,
    );
    assert_eq!(r.unwrap_err(), EmbedError::ChunkCountMismatch);
}

#[test]
fn wrong_vector_length_names_the_ordinal() {
    let mut vs = vectors(2, 3);
    vs[1] = vec![0; 2];
    let r = rows_for_document(
        &"doc".to_string(),
        &"{}".to_string(),
        &vec!["a".to_string(), "b".to_string()],
        &vs,
        3,
    );
    assert_eq!(r.unwrap_err(), EmbedError::DimensionMismatch { ordinal: 1 });
}

#[test]
fn dispatcher_never_exceeds_concurrency() {
    let mut d = Dispatcher::new(2, 3);
    assert!(d.can_start());
    d.start_task();
    assert!(d.can_start());
    d.start_task();
    assert_eq!(d.in_flight(), 2);
    assert!(!d.can_start());
    let ok = d.complete_task(
        &"doc-a".to_string(),
        &"{}".to_string(),
        &vec!["a".to_string()],
        &vectors(1, 3),
    );
    assert!(ok.is_ok());
    assert_eq!(d.in_flight(), 1);
    assert!(d.can_start());
}

#[test]
fn embedding_failure_aborts_the_run() {
    let mut d = Dispatcher::new(2, 3);
    d.start_task();
    let r = d.complete_task(
        &"doc-a".to_string(),
        &"{}".to_string(),
        &vec!["a".to_string()],
        &vectors(1, 5),
    );
    assert!(r.is_err());
    assert!(d.is_failed());
    assert!(!d.can_start());
    assert!(d.into_rows().is_empty());
}

#[test]
fn empty_text_with_zero_vector_keeps_dims_consistent() {
    let mut d = Dispatcher::new(1, 4);
    d.start_task();
    let zero = vec![vec![0u32; 4]];
    d.complete_task(&"doc-empty".to_string(), &"{}".to_string(), &vec![String::new()], &zero)
        .unwrap();
    let rows = d.into_rows();
    assert_eq!(rows.len(), 1);
    assert_eq!(rows[0].vector.len(), 4);
    assert_eq!(rows[0].dims, 4);
    assert!(!rows[0].id.is_empty());
    assert!(validate_rows(&rows, 4).is_ok());
}

fn good_row(id: &str, dims: usize) -> EmbeddedRow {
    EmbeddedRow {
        id: id.to_string(),
        metadata: "{}".to_string(),
        text: "t".to_string(),
        ordinal: 0,
        vector: vec![1; dims],
        dims,
    }
}

#[test]
fn batch_validation_accepts_fit_rows_and_names_the_first_bad_one() {
    let rows = vec![good_row("a", 3), good_row("b", 3)];
    assert!(validate_rows(&rows, 3).is_ok());
    let mut bad = vec![good_row("a", 3), good_row("", 3)];
    assert_eq!(validate_rows(&bad, 3).unwrap_err(), WriterError::InvalidRow { index: 1 });
    bad = vec![good_row("a", 2)];
    assert_eq!(validate_rows(&bad, 3).unwrap_err(), WriterError::InvalidRow { index: 0 });
}

#[test]
fn writer_steps_in_order_and_indexes_last() {
    let mut w = TableWriter::new("montreal_data".to_string(), 3);
    assert_eq!(w.stage(), WriterStage::Start);
    assert_eq!(w.name().as_str(), "montreal_data");
    assert_eq!(w.dims(), 3);
    w.record_created(false).unwrap();
    assert_eq!(w.stage(), WriterStage::Created);
    w.record_written(vec![good_row("a", 3), good_row("b", 3)]).unwrap();
    assert_eq!(w.stage(), WriterStage::Written);
    for row in w.rows() {
        assert_eq!(row.vector.len(), 3);
        assert!(!row.id.is_empty());
    }
    let index = w.record_indexed();
    assert_eq!(w.stage(), WriterStage::Indexed);
    assert_eq!(index, IndexSpec { cosine_distance: true, ivf_pq: true });
}

#[test]
fn existing_table_refuses_the_run() {
    let mut w = TableWriter::new("montreal_data".to_string(), 3);
    assert_eq!(w.record_created(true).unwrap_err(), WriterError::TableExists);
    assert_eq!(w.stage(), WriterStage::Start);
}

#[test]
fn unfit_batch_never_reaches_the_written_stage() {
    let mut w = TableWriter::new("t".to_string(), 3);
    w.record_created(false).unwrap();
    let err = w.record_written(vec![good_row("a", 3), good_row("", 3)]).unwrap_err();
    assert_eq!(err, WriterError::InvalidRow { index: 1 });
    assert_eq!(w.stage(), WriterStage::Created);
    assert!(w.rows().is_empty());
}
