//! Dispatching embedding work under bounded concurrency.
//!
//! For each document the caller requests one embedding per chunk from the
//! embedding function; document-level tasks run concurrently but never more
//! than the configured limit at once. The [`Dispatcher`] holds the decisions:
//! a task may start only while a slot is free, and a completed document's
//! vectors are checked and turned into rows ([`rows_for_document`]). A
//! failed embedding fails the run: the dispatcher records it and accepts no
//! further work.

use vstd::prelude::*;

verus! {

/// One row bound for the vector store: a chunk of a document together with
/// its embedding.
#[derive(Clone, Debug)]
pub struct EmbeddedRow {
    /// The parent document's stable id.
    pub id: String,
    /// The parent document's metadata, serialized as JSON text.
    pub metadata: String,
    /// The chunk's text.
    pub text: String,
    /// The chunk's ordinal within its document, starting at 0.
    pub ordinal: usize,
    /// The embedding's entries, carried opaquely as their bit patterns.
    pub vector: Vec<u32>,
    /// The embedding model's declared output dimensionality.
    pub dims: usize,
}

impl EmbeddedRow {
    /// A row fit for the store: the vector has exactly `dims` entries and
    /// the id is not empty.
    pub open spec fn wf(&self) -> bool {
        &&& self.vector@.len() == self.dims
        &&& self.id@.len() > 0
    }
}

/// Why a document's embeddings were rejected.
#[derive(PartialEq, Eq, Structural, Clone, Copy, Debug)]
pub enum EmbedError {
    /// The document's id is empty.
    EmptyId,
    /// The embedding function answered with a different number of vectors
    /// than the document has chunks.
    ChunkCountMismatch,
    /// A vector's length differs from the model's declared dimensionality.
    DimensionMismatch { ordinal: usize },
}

/// The embedding function's answer for one document is acceptable: the id
/// is non-empty, there is one vector per chunk, and every vector has
/// exactly `dims` entries.
pub open spec fn valid_embedding(
    id: Seq<char>,
    chunks: Seq<String>,
    vectors: Seq<Vec<u32>>,
    dims: int,
) -> bool {
    &&& id.len() > 0
    &&& vectors.len() == chunks.len()
    &&& forall|i: int| 0 <= i < vectors.len() ==> (#[trigger] vectors[i])@.len() == dims
}

/// Turn one document's chunks and their embeddings into store rows, one per
/// chunk, keeping each chunk's ordinal. Fails, and yields no rows, exactly
/// when the answer is not acceptable for the document.
pub fn rows_for_document(
    id: &String,
    metadata: &String,
    chunks: &Vec<String>,
    vectors: &Vec<Vec<u32>>,
    dims: usize,
) -> (r: Result<Vec<EmbeddedRow>, EmbedError>)
    ensures
        r is Ok <==> valid_embedding(id@, chunks@, vectors@, dims as int),
        r is Ok ==> {
            &&& r->Ok_0@.len() == chunks@.len()
            &&& forall|i: int|
                0 <= i < r->Ok_0@.len() ==> {
                    let row = #[trigger] r->Ok_0@[i];
                    &&& row.id == *id
                    &&& row.metadata == *metadata
                    &&& row.text == chunks@[i]
                    &&& row.ordinal == i
                    &&& row.vector@ == vectors@[i]@
                    &&& row.dims == dims
                    &&& row.wf()
                }
        },
        id@.len() == 0 ==> r == Result::<Vec<EmbeddedRow>, EmbedError>::Err(EmbedError::EmptyId),
        id@.len() > 0 && vectors@.len() != chunks@.len() ==> r == Result::<
            Vec<EmbeddedRow>,
            EmbedError,
        >::Err(EmbedError::ChunkCountMismatch),
{
    if id.as_str().is_empty() {
        return Err(EmbedError::EmptyId);
    }
    if vectors.len() != chunks.len() {
        return Err(EmbedError::ChunkCountMismatch);
    }
    let mut rows: Vec<EmbeddedRow> = Vec::new();
    let mut i: usize = 0;
    while i < chunks.len()
        invariant
            vectors@.len() == chunks@.len(),
            id@.len() > 0,
            i <= chunks@.len(),
            rows@.len() == i as int,
            forall|j: int|
                0 <= j < i ==> {
                    let row = #[trigger] rows@[j];
                    &&& row.id == *id
                    &&& row.metadata == *metadata
                    &&& row.text == chunks@[j]
                    &&& row.ordinal == j
                    &&& row.vector@ == vectors@[j]@
                    &&& row.dims == dims
                },
            forall|j: int| 0 <= j < i ==> (#[trigger] vectors@[j])@.len() == dims,
        decreases chunks@.len() - i,
    {
        let vector = vectors[i].clone();
        if vector.len() != dims {
            return Err(EmbedError::DimensionMismatch { ordinal: i });
        }
        rows.push(
            EmbeddedRow {
                id: id.clone(),
                metadata: metadata.clone(),
                text: chunks[i].clone(),
                ordinal: i,
                vector,
                dims,
            },
        );
        i = i + 1;
    }
    Ok(rows)
}

/// Every row of the batch is fit for the store and carries the model's
/// declared dimensionality.
pub open spec fn rows_wf(rows: Seq<EmbeddedRow>, dims: usize) -> bool {
    forall|i: int| 0 <= i < rows.len() ==> (#[trigger] rows[i]).wf() && rows[i].dims == dims
}

/// The scheduling state of one embedding run: how many document tasks are
/// in flight, the rows completed so far, and whether an embedding has
/// failed.
pub struct Dispatcher {
    concurrency: usize,
    in_flight: usize,
    rows: Vec<EmbeddedRow>,
    dims: usize,
    failed: bool,
}

impl Dispatcher {
    /// The configured bound on concurrent document tasks.
    pub closed spec fn spec_concurrency(&self) -> usize {
        self.concurrency
    }

    /// How many document tasks are currently in flight.
    pub closed spec fn spec_in_flight(&self) -> usize {
        self.in_flight
    }

    /// The rows completed so far, in completion order.
    pub closed spec fn spec_rows(&self) -> Seq<EmbeddedRow> {
        self.rows@
    }

    /// The embedding model's declared output dimensionality.
    pub closed spec fn spec_dims(&self) -> usize {
        self.dims
    }

    /// Whether an embedding has failed; a failure aborts the run.
    pub closed spec fn spec_failed(&self) -> bool {
        self.failed
    }

    /// The dispatcher's invariant: tasks in flight never exceed the
    /// concurrency bound, and every completed row is fit for the store.
    pub open spec fn wf(&self) -> bool {
        &&& self.spec_in_flight() <= self.spec_concurrency()
        &&& 1 <= self.spec_concurrency()
        &&& rows_wf(self.spec_rows(), self.spec_dims())
    }

    /// A fresh dispatcher with the given concurrency bound and model
    /// dimensionality, no work in flight.
    pub fn new(concurrency: usize, dims: usize) -> (d: Dispatcher)
        requires
            concurrency >= 1,
        ensures
            d.wf(),
            d.spec_concurrency() == concurrency,
            d.spec_in_flight() == 0,
            d.spec_rows() == Seq::<EmbeddedRow>::empty(),
            d.spec_dims() == dims,
            !d.spec_failed(),
    {
        Dispatcher { concurrency, in_flight: 0, rows: Vec::new(), dims, failed: false }
    }

    /// Whether one more document task may start now: a slot is free and the
    /// run has not failed.
    pub fn can_start(&self) -> (b: bool)
        ensures
            b == (self.spec_in_flight() < self.spec_concurrency() && !self.spec_failed()),
    {
        self.in_flight < self.concurrency && !self.failed
    }

    /// Start one document task. Only allowed while a slot is free, so the
    /// number of tasks in flight never exceeds the bound.
    pub fn start_task(&mut self)
        requires
            old(self).wf(),
            old(self).spec_in_flight() < old(self).spec_concurrency(),
            !old(self).spec_failed(),
        ensures
            final(self).wf(),
            final(self).spec_in_flight() == old(self).spec_in_flight() + 1,
            final(self).spec_in_flight() <= final(self).spec_concurrency(),
            final(self).spec_concurrency() == old(self).spec_concurrency(),
            final(self).spec_rows() == old(self).spec_rows(),
            final(self).spec_dims() == old(self).spec_dims(),
            final(self).spec_failed() == old(self).spec_failed(),
    {
        self.in_flight = self.in_flight + 1;
        proof {
            assert(rows_wf(self.rows@, self.dims));
        }
    }

    /// Record one document task's completion: the embedding function's
    /// vectors, one per chunk. An acceptable answer appends one row per
    /// chunk; anything else fails the run.
    pub fn complete_task(
        &mut self,
        id: &String,
        metadata: &String,
        chunks: &Vec<String>,
        vectors: &Vec<Vec<u32>>,
    ) -> (r: Result<(), EmbedError>)
        requires
            old(self).wf(),
            old(self).spec_in_flight() >= 1,
        ensures
            final(self).wf(),
            final(self).spec_in_flight() == old(self).spec_in_flight() - 1,
            final(self).spec_concurrency() == old(self).spec_concurrency(),
            final(self).spec_dims() == old(self).spec_dims(),
            r is Ok <==> valid_embedding(id@, chunks@, vectors@, old(self).spec_dims() as int),
            r is Ok ==> {
                &&& final(self).spec_rows().len() == old(self).spec_rows().len() + chunks@.len()
                &&& final(self).spec_rows().take(old(self).spec_rows().len() as int) == old(
                    self,
                ).spec_rows()
                &&& (forall|i: int|
                    0 <= i < chunks@.len() ==> {
                        let row = #[trigger] final(self).spec_rows()[old(
                            self,
                        ).spec_rows().len() + i];
                        &&& row.id == *id
                        &&& row.metadata == *metadata
                        &&& row.text == chunks@[i]
                        &&& row.ordinal == i
                        &&& row.vector@ == vectors@[i]@
                        &&& row.dims == old(self).spec_dims()
                    })
                &&& final(self).spec_failed() == old(self).spec_failed()
            },
            r is Err ==> {
                &&& final(self).spec_rows() == old(self).spec_rows()
                &&& final(self).spec_failed()
            },
    {
        self.in_flight = self.in_flight - 1;
        match rows_for_document(id, metadata, chunks, vectors, self.dims) {
            Ok(mut new_rows) => {
                let ghost before = self.rows@;
                let ghost added = new_rows@;
                self.rows.append(&mut new_rows);
                proof {
                    assert(self.rows@.take(before.len() as int) =~= before);
                    assert forall|i: int|
                        0 <= i < self.rows@.len() implies (#[trigger] self.rows@[i]).wf()
                        && self.rows@[i].dims == self.dims by {
                        if i < before.len() {
                            assert(self.rows@[i] == before[i]);
                            assert(rows_wf(before, self.dims));
                        } else {
                            assert(self.rows@[i] == added[i - before.len()]);
                        }
                    }
                }
                Ok(())
            },
            Err(e) => {
                self.failed = true;
                Err(e)
            },
        }
    }

    /// Record that a page or document task failed outside the embedding
    /// function's answer (the request itself failed): the run fails.
    pub fn record_failure(&mut self)
        requires
            old(self).wf(),
            old(self).spec_in_flight() >= 1,
        ensures
            final(self).wf(),
            final(self).spec_in_flight() == old(self).spec_in_flight() - 1,
            final(self).spec_concurrency() == old(self).spec_concurrency(),
            final(self).spec_rows() == old(self).spec_rows(),
            final(self).spec_dims() == old(self).spec_dims(),
            final(self).spec_failed(),
    {
        self.in_flight = self.in_flight - 1;
        self.failed = true;
        proof {
            assert(rows_wf(self.rows@, self.dims));
        }
    }

    pub fn in_flight(&self) -> (n: usize)
        ensures
            n == self.spec_in_flight(),
    {
        self.in_flight
    }

    pub fn is_failed(&self) -> (b: bool)
        ensures
            b == self.spec_failed(),
    {
        self.failed
    }

    /// Hand out the completed rows, consuming the dispatcher. The batch is
    /// only fit for the store if the run did not fail.
    pub fn into_rows(self) -> (rows: Vec<EmbeddedRow>)
        ensures
            rows@ == self.spec_rows(),
    {
        self.rows
    }
}

} // verus!
