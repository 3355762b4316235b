//! A streaming ingestion pipeline that turns a paginated data source into
//! chunked, embeddable text documents, computes vector embeddings for them,
//! and persists the result into an ANN-indexed vector table.
//!
//! The pipeline is a single forward composition: the fetcher pages through
//! the source, the normalizer maps raw items to documents, the chunker
//! splits oversized documents under a token budget, the dispatcher requests
//! one embedding per chunk under bounded concurrency, and the writer stores
//! the embedded rows and builds the index. Network and storage calls are the
//! caller's concern; this crate holds the decisions and the data handling,
//! verified.

pub mod chunker;
pub mod dispatcher;
pub mod document;
pub mod json;
pub mod fetcher;
pub mod montreal;
pub mod spotify;
pub mod spotify_library;
pub mod text;
pub mod timestamp;
pub mod tokenizer;
pub mod writer;

use vstd::prelude::*;

verus! {

/// The number of items requested per page from a paginated source.
pub const PAGE_SIZE: usize = 50;

} // verus!
