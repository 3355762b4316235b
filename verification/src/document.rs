//! The canonical document form that the pipeline embeds.
//!
//! Every source's records are normalized into this shape: a stable id,
//! the record's metadata serialized as JSON text, and one or more text
//! fragments to embed. The id must be non-empty and derived from the record
//! alone, so re-ingesting the same record targets the same row family.

use vstd::prelude::*;

verus! {

/// One normalized document: a stable id, its metadata as JSON text, and
/// the text fragments to embed.
#[derive(Clone, Debug)]
pub struct Document {
    pub id: String,
    /// The record's metadata, serialized as JSON text.
    pub metadata: String,
    /// The texts to embed, in order.
    pub fragments: Vec<String>,
}

impl Document {
    /// A document the pipeline accepts: its id is non-empty.
    pub open spec fn wf(&self) -> bool {
        self.id@.len() > 0
    }
}

} // verus!
