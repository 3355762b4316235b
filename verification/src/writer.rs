//! Writing the embedded rows into the vector store.
//!
//! One run targets one fresh table: create it (failing if a table of the
//! same name already exists), bulk-insert the whole batch in one write, and
//! only then build the ANN index (IVF-PQ, cosine distance) over the vector
//! column. The storage calls are the caller's; [`TableWriter`] holds the
//! order of the steps and the rule that only a batch of well-formed rows,
//! every vector of the declared length and every id non-empty, reaches the
//! write.

use crate::dispatcher::{rows_wf, EmbeddedRow};
use vstd::prelude::*;

verus! {

/// How far one run's table has come.
#[derive(PartialEq, Eq, Structural, Clone, Copy, Debug)]
pub enum WriterStage {
    /// Nothing done yet.
    Start,
    /// The fresh table exists, still empty.
    Created,
    /// The whole batch stands in the table.
    Written,
    /// The ANN index over the vector column is built.
    Indexed,
}

/// Why a writer step was refused. Every one of these is fatal to the run.
#[derive(PartialEq, Eq, Structural, Clone, Copy, Debug)]
pub enum WriterError {
    /// A table of the requested name already exists.
    TableExists,
    /// A row of the batch is not fit for the store; the field names the
    /// first offending row.
    InvalidRow { index: usize },
}

/// The descriptor of the ANN index built after the write: over the vector
/// column, cosine distance, IVF-PQ.
#[derive(PartialEq, Eq, Structural, Clone, Copy, Debug)]
pub struct IndexSpec {
    pub cosine_distance: bool,
    pub ivf_pq: bool,
}

/// Check a batch before the bulk write: accepted exactly when every row's
/// vector has `dims` entries and every id is non-empty. The error names the
/// first row that is not fit.
pub fn validate_rows(rows: &Vec<EmbeddedRow>, dims: usize) -> (r: Result<(), WriterError>)
    ensures
        r is Ok <==> rows_wf(rows@, dims),
        r is Err ==> {
            let index = r->Err_0->InvalidRow_index;
            &&& r->Err_0 is InvalidRow
            &&& 0 <= index < rows@.len()
            &&& !(rows@[index as int].wf() && rows@[index as int].dims == dims)
        },
{
    let mut i: usize = 0;
    while i < rows.len()
        invariant
            i <= rows@.len(),
            forall|j: int|
                0 <= j < i ==> (#[trigger] rows@[j]).wf() && rows@[j].dims == dims,
        decreases rows@.len() - i,
    {
        let row = &rows[i];
        if row.vector.len() != row.dims || row.dims != dims || row.id.as_str().is_empty() {
            return Err(WriterError::InvalidRow { index: i });
        }
        i = i + 1;
    }
    Ok(())
}

/// The state of one run's write into the vector store: the table's name,
/// the model's dimensionality, the stage reached, and — once validated —
/// the batch handed out for the bulk write.
pub struct TableWriter {
    name: String,
    dims: usize,
    stage: WriterStage,
    rows: Vec<EmbeddedRow>,
}

impl TableWriter {
    pub closed spec fn spec_name(&self) -> Seq<char> {
        self.name@
    }

    pub closed spec fn spec_dims(&self) -> usize {
        self.dims
    }

    pub closed spec fn spec_stage(&self) -> WriterStage {
        self.stage
    }

    /// The validated batch; empty until the write step.
    pub closed spec fn spec_rows(&self) -> Seq<EmbeddedRow> {
        self.rows@
    }

    /// The writer's invariant: no batch is held before the write step, and
    /// a held batch is entirely fit for the store.
    pub open spec fn wf(&self) -> bool {
        &&& (self.spec_stage() is Start || self.spec_stage() is Created)
            ==> self.spec_rows().len() == 0
        &&& rows_wf(self.spec_rows(), self.spec_dims())
    }

    /// A writer for one fresh table of the given name and vector width.
    pub fn new(name: String, dims: usize) -> (w: TableWriter)
        ensures
            w.wf(),
            w.spec_name() == name@,
            w.spec_dims() == dims,
            w.spec_stage() is Start,
            w.spec_rows().len() == 0,
    {
        TableWriter { name, dims, stage: WriterStage::Start, rows: Vec::new() }
    }

    pub fn name(&self) -> (r: &String)
        ensures
            r@ == self.spec_name(),
    {
        &self.name
    }

    pub fn dims(&self) -> (r: usize)
        ensures
            r == self.spec_dims(),
    {
        self.dims
    }

    pub fn stage(&self) -> (r: WriterStage)
        ensures
            r == self.spec_stage(),
    {
        self.stage
    }

    /// The rows of the validated batch, for the caller's bulk insert.
    pub fn rows(&self) -> (r: &Vec<EmbeddedRow>)
        ensures
            r@ == self.spec_rows(),
    {
        &self.rows
    }

    /// Record the table-creation step. The run targets a fresh table, so an
    /// existing table of the same name refuses the step; that failure is
    /// fatal to the run.
    pub fn record_created(&mut self, already_exists: bool) -> (r: Result<(), WriterError>)
        requires
            old(self).wf(),
            old(self).spec_stage() is Start,
        ensures
            final(self).wf(),
            final(self).spec_name() == old(self).spec_name(),
            final(self).spec_dims() == old(self).spec_dims(),
            final(self).spec_rows() == old(self).spec_rows(),
            r is Ok <==> !already_exists,
            already_exists ==> r == Result::<(), WriterError>::Err(WriterError::TableExists)
                && final(self).spec_stage() is Start,
            !already_exists ==> final(self).spec_stage() is Created,
    {
        if already_exists {
            return Err(WriterError::TableExists);
        }
        self.stage = WriterStage::Created;
        Ok(())
    }

    /// Validate the whole batch and accept it for the one bulk write.
    /// Accepted exactly when every row is fit for the store; a refused
    /// batch leaves the writer as it was, and the failure is fatal to the
    /// run.
    pub fn record_written(&mut self, rows: Vec<EmbeddedRow>) -> (r: Result<(), WriterError>)
        requires
            old(self).wf(),
            old(self).spec_stage() is Created,
        ensures
            final(self).wf(),
            final(self).spec_name() == old(self).spec_name(),
            final(self).spec_dims() == old(self).spec_dims(),
            r is Ok <==> rows_wf(rows@, old(self).spec_dims()),
            r is Ok ==> final(self).spec_stage() is Written && final(self).spec_rows() == rows@,
            r is Err ==> final(self).spec_stage() is Created && final(self).spec_rows()
                == old(self).spec_rows() && r->Err_0 is InvalidRow,
    {
        match validate_rows(&rows, self.dims) {
            Ok(()) => {
                self.rows = rows;
                self.stage = WriterStage::Written;
                Ok(())
            },
            Err(e) => Err(e),
        }
    }

    /// Record the index build: only after the whole batch stands in the
    /// table is the ANN index built, over the vector column with cosine
    /// distance and an IVF-PQ configuration.
    pub fn record_indexed(&mut self) -> (spec: IndexSpec)
        requires
            old(self).wf(),
            old(self).spec_stage() is Written,
        ensures
            final(self).wf(),
            final(self).spec_name() == old(self).spec_name(),
            final(self).spec_dims() == old(self).spec_dims(),
            final(self).spec_rows() == old(self).spec_rows(),
            final(self).spec_stage() is Indexed,
            spec.cosine_distance && spec.ivf_pq,
    {
        self.stage = WriterStage::Indexed;
        proof {
            assert(rows_wf(self.rows@, self.dims));
        }
        IndexSpec { cosine_distance: true, ivf_pq: true }
    }
}

} // verus!
