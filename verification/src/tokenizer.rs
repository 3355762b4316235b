//! Token counting through the `tiktoken_rs` byte-pair tokenizer.
//!
//! The chunker needs to know how many tokens the embedding model's tokenizer
//! produces for a document. The count is an opaque function of the tokenizer
//! and the text; everything downstream is verified for every value of it.

use tiktoken_rs::CoreBPE;
use vstd::prelude::*;

verus! {

#[verifier::external_type_specification]
#[verifier::external_body]
pub struct ExCoreBPE(CoreBPE);

/// The number of tokens the given byte-pair tokenizer produces for the given
/// text. Tokenization is computed from the tokenizer's tables and the text
/// alone, so the count is a deterministic function of the two.
pub uninterp spec fn bpe_token_count(bpe: CoreBPE, text: Seq<char>) -> usize;

/// Whether the given tokenizer tokenizes the given text at all. Like the
/// count, this is computed from the tokenizer's tables and the text alone,
/// so two calls on the same pair agree on success.
pub uninterp spec fn bpe_encode_ok(bpe: CoreBPE, text: Seq<char>) -> bool;

/// Relies on tiktoken_rs::CoreBPE::encode, called with the tokenizer's own
/// special tokens allowed, exactly as CoreBPE::encode_with_special_tokens
/// does; unlike that method it hands a tokenizer-internal failure back as
/// None instead of unwrapping it.
#[verifier::external_body]
pub(crate) fn count_tokens(bpe: &CoreBPE, text: &str) -> (r: Option<usize>)
    ensures
        r is Some <==> bpe_encode_ok(*bpe, text@),
        r is Some ==> r->0 == bpe_token_count(*bpe, text@),
{
    let allowed = bpe.special_tokens();
    match bpe.encode(text, &allowed) {
        Ok((tokens, _)) => Some(tokens.len()),
        Err(_) => None,
    }
}

} // verus!
