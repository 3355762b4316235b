use vector_ingest::chunker::{chunk, chunk_text, MAX_TOKENS};
use vector_ingest::montreal::CategoryMetadata;

#[test]
fn within_budget_yields_one_chunk_equal_to_text() {
    let chunks = chunk_text("hello world", 5, MAX_TOKENS);
    assert_eq!(chunks, vec!["hello world".to_string()]);
}

#[test]
fn exactly_at_budget_yields_one_chunk() {
    let chunks = chunk_text("some document", MAX_TOKENS, MAX_TOKENS);
    assert_eq!(chunks, vec!["some document".to_string()]);
}

#[test]
fn empty_document_yields_one_empty_chunk() {
    let chunks = chunk_text("", 0, MAX_TOKENS);
    assert_eq!(chunks, vec![String::new()]);
}

#[test]
fn nine_thousand_tokens_at_8191_budget_yield_two_chunks() {
    let text = "x".repeat(100);
    let chunks = chunk_text(&text, 9000, MAX_TOKENS);
    assert_eq!(chunks.len(), 2);
    assert_eq!(chunks[0].len(), 50);
    assert_eq!(chunks[1].len(), 50);
}

#[test]
fn chunks_concatenate_to_original_text() {
    let text = "abcdefghij";
    let chunks = chunk_text(text, 25000, MAX_TOKENS);
    assert_eq!(chunks.len(), 4);
    assert_eq!(chunks, vec!["abc", "def", "ghi", "j"]);
    let rebuilt: String = chunks.concat();
    assert_eq!(rebuilt, text);
}

#[test]
fn more_parts_than_characters_pads_with_empty_chunks() {
    let text = "ab";
    let chunks = chunk_text(text, 3 * MAX_TOKENS, MAX_TOKENS);
    assert_eq!(chunks, vec!["a", "b", ""]);
    assert_eq!(chunks.concat(), text);
}

#[test]
fn chunk_serializes_and_keeps_small_document_whole() {
    let bpe = tiktoken_rs::cl100k_base().unwrap();
    let category = CategoryMetadata {
        id: "abc".to_string(),
        titre: "Titre".to_string(),
        notes: "Notes".to_string(),
        organisation: "Ville".to_string(),
        territoire: vec!["Centre".to_string()],
        groupes: vec!["G1".to_string()],
        tags: vec!["t1".to_string(), "t2".to_string()],
        description_donnees: vec!["D1".to_string()],
        methodologie: "M".to_string(),
    };
    let chunks = chunk(&bpe, &category).unwrap();
    assert_eq!(chunks.len(), 1);
    assert_eq!(chunks[0], category.document_text());
}

#[test]
fn token_counts_come_from_the_tokenizer_not_the_byte_length() {
    let bpe = tiktoken_rs::cl100k_base().unwrap();
    let n = bpe.encode_with_special_tokens("hello world").len();
    assert!(n >= 1);
    assert!(n < "hello world".len());
}

#[test]
fn oversized_document_splits_into_ceil_of_token_count_over_budget() {
    let bpe = tiktoken_rs::cl100k_base().unwrap();
    let text = "le jeu de données décrit ".repeat(2000);
    let n = bpe.encode_with_special_tokens(&text).len();
    assert!(n > MAX_TOKENS);
    let chunks = chunk_text(&text, n, MAX_TOKENS);
    assert_eq!(chunks.len(), (n + MAX_TOKENS - 1) / MAX_TOKENS);
    assert_eq!(chunks.concat(), text);
}
