//! Token-aware splitting of a document's text.
//!
//! A document whose token count fits the embedding model's budget is kept
//! whole: one chunk, equal to the full text. An oversized document is split
//! into `ceil(token_count / max_tokens)` contiguous ranges of characters of
//! proportional size (the final range clipped to the text's end), emitted in
//! order. Splitting is deterministic, and concatenating the chunks restores
//! the original text exactly; a chunk's own token count is not re-checked
//! after the proportional split (an accepted approximation, since token
//! density is not uniform across the text).

use crate::json::json_string;
use crate::montreal::{spec_paragraph, CategoryMetadata};
use crate::tokenizer::{bpe_encode_ok, bpe_token_count, count_tokens};
use tiktoken_rs::CoreBPE;
use vstd::arithmetic::div_mod::lemma_fundamental_div_mod;
use vstd::prelude::*;
use vstd::string::StrSliceExecFns;

verus! {

/// The embedding model's token budget: a document counted above it is
/// split.
pub const MAX_TOKENS: usize = 8191;

/// How many chunks a text of `token_count` tokens is split into under a
/// budget of `max_tokens` per chunk: one if it fits, `ceil` of the ratio
/// otherwise.
pub open spec fn num_chunks(token_count: int, max_tokens: int) -> int {
    if token_count <= max_tokens {
        1
    } else {
        (token_count - 1) / max_tokens + 1
    }
}

/// The size of each chunk (except possibly the last) when a text of `len`
/// characters is cut into `parts` pieces: `ceil(len / parts)`.
pub open spec fn split_size(len: int, parts: int) -> int {
    if len <= 0 {
        0
    } else {
        (len - 1) / parts + 1
    }
}

/// Where chunk `i` starts in the text: `i` ranges of `split_size`
/// characters, clipped to the text's end.
pub open spec fn chunk_start(len: int, token_count: int, max_tokens: int, i: int) -> int {
    let s = split_size(len, num_chunks(token_count, max_tokens));
    if i * s > len {
        len
    } else {
        i * s
    }
}

/// Chunk `i` of the text: the characters from its start to the next chunk's
/// start.
pub open spec fn chunk_at(text: Seq<char>, token_count: int, max_tokens: int, i: int) -> Seq<
    char,
> {
    text.subrange(
        chunk_start(text.len() as int, token_count, max_tokens, i),
        chunk_start(text.len() as int, token_count, max_tokens, i + 1),
    )
}

/// The first `i` chunks of the text, concatenated in order.
pub open spec fn concat_chunks(
    text: Seq<char>,
    token_count: int,
    max_tokens: int,
    i: int,
) -> Seq<char>
    decreases i,
{
    if i <= 0 {
        Seq::empty()
    } else {
        concat_chunks(text, token_count, max_tokens, i - 1) + chunk_at(
            text,
            token_count,
            max_tokens,
            i - 1,
        )
    }
}

/// Chunk 0 starts at the beginning of the text.
proof fn lemma_chunk_start_zero(len: int, token_count: int, max_tokens: int)
    requires
        len >= 0,
    ensures
        chunk_start(len, token_count, max_tokens, 0) == 0,
{
    let s = split_size(len, num_chunks(token_count, max_tokens));
    assert(0 * s == 0) by (nonlinear_arith);
}

/// Chunk starts never pass the end of the text and advance by at most one
/// split size at a time.
proof fn lemma_chunk_start_step(len: int, token_count: int, max_tokens: int, i: int)
    requires
        max_tokens >= 1,
        len >= 0,
        i >= 0,
    ensures
        0 <= chunk_start(len, token_count, max_tokens, i) <= chunk_start(
            len,
            token_count,
            max_tokens,
            i + 1,
        ) <= len,
{
    let n = num_chunks(token_count, max_tokens);
    let s = split_size(len, n);
    assert(n >= 1);
    assert(s >= 0);
    assert((i + 1) * s == i * s + s) by (nonlinear_arith);
    assert(i * s >= 0) by (nonlinear_arith)
        requires
            i >= 0,
            s >= 0,
    ;
}

/// After all `num_chunks` ranges, the whole text is covered: the last chunk
/// ends at the text's end.
proof fn lemma_chunk_start_final(len: int, token_count: int, max_tokens: int)
    requires
        max_tokens >= 1,
        len >= 0,
    ensures
        chunk_start(len, token_count, max_tokens, num_chunks(token_count, max_tokens)) == len,
{
    let n = num_chunks(token_count, max_tokens);
    let s = split_size(len, n);
    assert(n >= 1);
    if len == 0 {
        assert(n * s == 0) by (nonlinear_arith)
            requires
                s == 0,
        ;
    } else {
        lemma_fundamental_div_mod(len - 1, n);
        assert(n * s >= len) by (nonlinear_arith)
            requires
                n >= 1,
                s == (len - 1) / n + 1,
                len - 1 == n * ((len - 1) / n) + (len - 1) % n,
                0 <= (len - 1) % n < n,
        ;
    }
}

/// Concatenating the chunks in order restores the original text exactly:
/// splitting loses nothing and reorders nothing, whatever the token count
/// and budget.
pub proof fn lemma_chunks_reconstruct(text: Seq<char>, token_count: int, max_tokens: int)
    requires
        max_tokens >= 1,
    ensures
        concat_chunks(text, token_count, max_tokens, num_chunks(token_count, max_tokens))
            =~= text,
{
    let n = num_chunks(token_count, max_tokens);
    lemma_concat_chunks_prefix(text, token_count, max_tokens, n);
    lemma_chunk_start_final(text.len() as int, token_count, max_tokens);
}

/// The first `i` chunks concatenated are exactly the text up to chunk
/// `i`'s end.
proof fn lemma_concat_chunks_prefix(text: Seq<char>, token_count: int, max_tokens: int, i: int)
    requires
        max_tokens >= 1,
        i >= 0,
    ensures
        concat_chunks(text, token_count, max_tokens, i) =~= text.subrange(
            0,
            chunk_start(text.len() as int, token_count, max_tokens, i),
        ),
    decreases i,
{
    let len = text.len() as int;
    if i == 0 {
        lemma_chunk_start_zero(len, token_count, max_tokens);
    } else {
        lemma_concat_chunks_prefix(text, token_count, max_tokens, i - 1);
        lemma_chunk_start_step(len, token_count, max_tokens, i - 1);
    }
}

/// Split `text` into chunks under the token budget. `token_count` is the
/// text's token count under the embedding model's tokenizer.
///
/// A text whose token count is within the budget comes back as exactly one
/// chunk equal to the whole text; an oversized one as
/// `ceil(token_count / max_tokens)` contiguous ranges whose concatenation is
/// the original text.
pub fn chunk_text(text: &str, token_count: usize, max_tokens: usize) -> (chunks: Vec<String>)
    requires
        max_tokens >= 1,
    ensures
        chunks@.len() == num_chunks(token_count as int, max_tokens as int),
        forall|i: int|
            0 <= i < chunks@.len() ==> chunks@[i]@ == chunk_at(
                text@,
                token_count as int,
                max_tokens as int,
                i,
            ),
        token_count <= max_tokens ==> chunks@.len() == 1 && chunks@[0]@ == text@,
{
    let ghost t = token_count as int;
    let ghost m = max_tokens as int;
    let len = text.unicode_len();
    let parts: usize = if token_count <= max_tokens {
        1
    } else {
        (token_count - 1) / max_tokens + 1
    };
    let split: usize = if len == 0 {
        0
    } else {
        (len - 1) / parts + 1
    };
    assert(parts == num_chunks(t, m));
    assert(split == split_size(len as int, parts as int));
    let mut chunks: Vec<String> = Vec::new();
    let mut pos: usize = 0;
    let mut i: usize = 0;
    proof {
        lemma_chunk_start_zero(len as int, t, m);
    }
    while i < parts
        invariant
            parts == num_chunks(t, m),
            split == split_size(len as int, parts as int),
            len == text@.len(),
            m >= 1,
            i <= parts,
            pos == chunk_start(len as int, t, m, i as int),
            pos <= len,
            chunks@.len() == i as int,
            forall|j: int| 0 <= j < i ==> chunks@[j]@ == chunk_at(text@, t, m, j),
        decreases parts - i,
    {
        proof {
            lemma_chunk_start_step(len as int, t, m, i as int);
        }
        let take: usize = if len - pos < split {
            len - pos
        } else {
            split
        };
        let piece = text.substring_char(pos, pos + take);
        chunks.push(piece.to_owned());
        proof {
            assert((i + 1) * (split as int) == i * (split as int) + split) by (nonlinear_arith);
        }
        pos = pos + take;
        i = i + 1;
    }
    proof {
        if token_count <= max_tokens {
            lemma_chunk_start_zero(len as int, t, m);
            lemma_chunk_start_final(len as int, t, m);
            assert(num_chunks(t, m) == 1);
            assert(chunk_start(len as int, t, m, 1) == len as int);
            assert(chunks@[0]@ == chunk_at(text@, t, m, 0));
            assert(chunk_at(text@, t, m, 0) =~= text@);
        }
    }
    chunks
}


/// Serialize the entry and split its document text under the model's token
/// budget. `None` exactly when the tokenizer itself fails on the document
/// text — a condition of the tokenizer and the text alone, so two calls on
/// the same pair agree; the split of the counted text is pinned down by
/// [`chunk_text`]'s contract.
pub fn chunk(core_bpe: &CoreBPE, value: &CategoryMetadata) -> (r: Option<Vec<String>>)
    ensures
        ({
            let doc = json_string(spec_paragraph(*value));
            let t = bpe_token_count(*core_bpe, doc) as int;
            &&& r is Some <==> bpe_encode_ok(*core_bpe, doc)
            &&& r is Some ==> {
                &&& r->0@.len() == num_chunks(t, MAX_TOKENS as int)
                &&& (forall|i: int|
                    0 <= i < r->0@.len() ==> r->0@[i]@ == chunk_at(doc, t, MAX_TOKENS as int, i))
                &&& (t <= MAX_TOKENS as int ==> r->0@.len() == 1 && r->0@[0]@ == doc)
            }
        }),
{
    let document = value.document_text();
    match count_tokens(core_bpe, document.as_str()) {
        Some(token_count) => Some(chunk_text(document.as_str(), token_count, MAX_TOKENS)),
        None => None,
    }
}

} // verus!
