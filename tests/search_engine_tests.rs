use wakeru::config::Language;
use wakeru::errors::SearcherError;
use wakeru::indexer::IndexManager;
use wakeru::models::{Document, JsonValue};
use wakeru::searcher::{SearchEngine, SearchResult};

fn create_english_index_manager() -> (tempfile::TempDir, IndexManager) {
    let dir = tempfile::TempDir::new().expect("Failed to create temporary directory");
    let m = IndexManager::open_or_create(dir.path().to_str().unwrap(), Language::En, None).expect("Failed to create index");
    (dir, m)
}

fn create_search_engine(m: &IndexManager) -> SearchEngine {
    SearchEngine::new(m.index(), *m.fields(), Language::En).expect("Failed to create SearchEngine")
}

fn add_test_documents(m: &IndexManager, docs: Vec<Document>) {
    let n = docs.len();
    let report = m.add_documents(&docs).expect("Failed to add documents");
    assert_eq!(report.added, n);
}

fn score(r: &SearchResult) -> f32 {
    f32::from_bits(r.score_bits)
}

fn to_json(v: &JsonValue) -> serde_json::Value {
    match v {
        JsonValue::Null => serde_json::Value::Null,
        JsonValue::Bool(b) => serde_json::Value::Bool(*b),
        JsonValue::Number(n) => serde_json::Value::Number(n.clone()),
        JsonValue::Str(s) => serde_json::Value::String(s.clone()),
        JsonValue::Array(a) => serde_json::Value::Array(a.iter().map(to_json).collect()),
        JsonValue::Object { keys, values } => {
            let mut m = serde_json::Map::new();
            for (k, v) in keys.iter().zip(values.iter()) {
                m.insert(k.clone(), to_json(v));
            }
            serde_json::Value::Object(m)
        }
    }
}

fn meta(r: &SearchResult, key: &str) -> serde_json::Value {
    to_json(r.metadata.get(key).expect("metadata key missing"))
}

fn num(n: u64) -> JsonValue {
    JsonValue::Number(serde_json::Number::from(n))
}

fn text(s: &str) -> JsonValue {
    JsonValue::Str(s.to_string())
}

#[test]
fn search_engine_language() {
    let (_d, m) = create_english_index_manager();
    assert_eq!(create_search_engine(&m).language(), Language::En);
}

#[test]
fn search_returns_empty_for_empty_index() {
    let (_d, m) = create_english_index_manager();
    assert!(create_search_engine(&m).search("tokyo", 10).unwrap().is_empty());
}

#[test]
fn search_finds_matching_document() {
    let (_d, m) = create_english_index_manager();
    add_test_documents(&m, vec![
        Document::new("doc-1", "src-1", "Tokyo is the capital of Japan"),
        Document::new("doc-2", "src-1", "Osaka is a major city"),
    ]);
    let results = create_search_engine(&m).search("tokyo", 10).unwrap();
    assert_eq!(results.len(), 1);
    assert_eq!(results[0].doc_id, "doc-1");
    assert!(score(&results[0]) > 0.0);
}

#[test]
fn search_is_case_insensitive() {
    let (_d, m) = create_english_index_manager();
    add_test_documents(&m, vec![Document::new("doc-1", "src-1", "Tokyo is the capital of Japan")]);
    let e = create_search_engine(&m);
    assert_eq!(e.search("tokyo", 10).unwrap().len(), 1);
    assert_eq!(e.search("TOKYO", 10).unwrap().len(), 1);
}

#[test]
fn search_bm25_rare_term_scores_higher() {
    let (_d, m) = create_english_index_manager();
    add_test_documents(&m, vec![
        Document::new("doc-1", "src-1", "Rust programming language"),
        Document::new("doc-2", "src-1", "Python programming language"),
    ]);
    let results = create_search_engine(&m).search("rust", 10).unwrap();
    assert_eq!(results.len(), 1);
    assert_eq!(results[0].doc_id, "doc-1");
}

#[test]
fn search_returns_results_sorted_by_score() {
    let (_d, m) = create_english_index_manager();
    add_test_documents(&m, vec![
        Document::new("doc-1", "src-1", "programming programming programming"),
        Document::new("doc-2", "src-1", "programming"),
    ]);
    let results = create_search_engine(&m).search("programming", 10).unwrap();
    assert_eq!(results.len(), 2);
    for i in 0..results.len().saturating_sub(1) {
        assert!(score(&results[i]) >= score(&results[i + 1]));
    }
}

#[test]
fn search_tokens_or_finds_documents() {
    let (_d, m) = create_english_index_manager();
    add_test_documents(&m, vec![
        Document::new("doc-1", "src-1", "Tokyo is the capital of Japan"),
        Document::new("doc-2", "src-1", "Osaka is a major city"),
    ]);
    let results = create_search_engine(&m).search_tokens_or("tokyo", 10).unwrap();
    assert_eq!(results.len(), 1);
    assert_eq!(results[0].doc_id, "doc-1");
}

#[test]
fn search_tokens_or_handles_multiple_tokens() {
    let (_d, m) = create_english_index_manager();
    add_test_documents(&m, vec![
        Document::new("doc-1", "src-1", "Tokyo tower is famous"),
        Document::new("doc-2", "src-1", "Osaka castle is famous"),
    ]);
    assert_eq!(create_search_engine(&m).search_tokens_or("tokyo osaka", 10).unwrap().len(), 2);
}

#[test]
fn search_tokens_or_returns_empty_for_empty_tokens() {
    let (_d, m) = create_english_index_manager();
    add_test_documents(&m, vec![Document::new("doc-1", "src-1", "Some content")]);
    assert!(create_search_engine(&m).search_tokens_or("", 10).unwrap().is_empty());
}

#[test]
fn search_tokens_or_respects_limit() {
    let (_d, m) = create_english_index_manager();
    add_test_documents(&m, vec![
        Document::new("doc-1", "src-1", "programming language"),
        Document::new("doc-2", "src-1", "programming tutorial"),
        Document::new("doc-3", "src-1", "programming guide"),
    ]);
    assert_eq!(create_search_engine(&m).search_tokens_or("programming", 2).unwrap().len(), 2);
}

#[test]
fn search_restores_metadata() {
    let (_d, m) = create_english_index_manager();
    add_test_documents(&m, vec![Document::new("doc-1", "src-1", "Tokyo is the capital of Japan")
        .with_metadata("author", text("alice"))
        .with_metadata("version", num(1))
        .with_tag("category:geo")]);
    let results = create_search_engine(&m).search("tokyo", 10).unwrap();
    assert_eq!(results.len(), 1);
    assert_eq!(meta(&results[0], "author"), serde_json::Value::from("alice"));
    assert_eq!(meta(&results[0], "version"), serde_json::Value::from(1));
    assert_eq!(meta(&results[0], "tags"), serde_json::Value::from(vec!["category:geo"]));
}

#[test]
fn search_returns_empty_metadata_when_not_set() {
    let (_d, m) = create_english_index_manager();
    add_test_documents(&m, vec![Document::new("doc-1", "src-1", "Tokyo is the capital")]);
    let results = create_search_engine(&m).search("tokyo", 10).unwrap();
    assert_eq!(results.len(), 1);
    assert!(results[0].metadata.is_empty());
}

#[test]
fn search_handles_complex_metadata_types() {
    let (_d, m) = create_english_index_manager();
    add_test_documents(&m, vec![Document::new("doc-1", "src-1", "Test document")
        .with_metadata("string", text("value"))
        .with_metadata("number", num(42))
        .with_metadata("boolean", JsonValue::Bool(true))
        .with_metadata("null", JsonValue::Null)
        .with_metadata("array", JsonValue::Array(vec![num(1), num(2), num(3)]))
        .with_metadata("object", JsonValue::Object { keys: vec!["nested".to_string()], values: vec![text("value")] })]);
    let results = create_search_engine(&m).search("test", 10).unwrap();
    assert_eq!(results.len(), 1);
    let r = &results[0];
    assert_eq!(meta(r, "string"), serde_json::Value::from("value"));
    assert_eq!(meta(r, "number"), serde_json::Value::from(42));
    assert_eq!(meta(r, "boolean"), serde_json::Value::from(true));
    assert_eq!(meta(r, "null"), serde_json::Value::Null);
    assert_eq!(meta(r, "array"), serde_json::Value::from(vec![1, 2, 3]));
    let mut obj = serde_json::Map::new();
    obj.insert("nested".to_string(), serde_json::Value::from("value"));
    assert_eq!(meta(r, "object"), serde_json::Value::Object(obj));
}

#[test]
fn search_result_contains_all_fields() {
    let (_d, m) = create_english_index_manager();
    add_test_documents(&m, vec![Document::new("doc-123", "src-456", "Hello world").with_metadata("key", text("value"))]);
    let results = create_search_engine(&m).search("hello", 10).unwrap();
    assert_eq!(results.len(), 1);
    let r = &results[0];
    assert_eq!(r.doc_id, "doc-123");
    assert_eq!(r.source_id, "src-456");
    assert_eq!(r.text, "Hello world");
    assert!(score(r) > 0.0);
    assert_eq!(meta(r, "key"), serde_json::Value::from("value"));
}

#[test]
fn search_invalid_query_returns_error() {
    let (_d, m) = create_english_index_manager();
    let result = create_search_engine(&m).search("(", 10);
    assert!(matches!(result, Err(SearcherError::InvalidQuery { .. })));
}

#[test]
fn search_stemming_works_for_english() {
    let (_d, m) = create_english_index_manager();
    add_test_documents(&m, vec![Document::new("doc-1", "src-1", "running and jumping")]);
    assert!(create_search_engine(&m).search("run", 10).is_ok());
}

#[test]
fn search_tokens_or_lowercases_query() {
    let (_d, m) = create_english_index_manager();
    add_test_documents(&m, vec![Document::new("doc-1", "src-1", "TOKYO CAPITAL")]);
    assert_eq!(create_search_engine(&m).search_tokens_or("tokyo", 10).unwrap().len(), 1);
}

#[test]
fn search_finds_multiple_matching_documents() {
    let (_d, m) = create_english_index_manager();
    add_test_documents(&m, vec![
        Document::new("doc-1", "src-1", "Rust programming"),
        Document::new("doc-2", "src-1", "Python programming"),
        Document::new("doc-3", "src-1", "Java programming"),
    ]);
    assert_eq!(create_search_engine(&m).search("programming", 10).unwrap().len(), 3);
}

#[test]
fn search_distinct_source_ids() {
    let (_d, m) = create_english_index_manager();
    add_test_documents(&m, vec![
        Document::new("doc-1", "source-alpha", "Alpha document"),
        Document::new("doc-2", "source-beta", "Beta document"),
    ]);
    let results = create_search_engine(&m).search("document", 10).unwrap();
    assert_eq!(results.len(), 2);
    let ids: std::collections::HashSet<&str> = results.iter().map(|r| r.source_id.as_str()).collect();
    assert!(ids.contains("source-alpha"));
    assert!(ids.contains("source-beta"));
}

#[test]
fn search_special_characters_in_content() {
    let (_d, m) = create_english_index_manager();
    add_test_documents(&m, vec![Document::new("doc-1", "src-1", "Price: $100 (50% off!)")]);
    let results = create_search_engine(&m).search("price", 10).unwrap();
    assert_eq!(results.len(), 1);
    assert_eq!(results[0].text, "Price: $100 (50% off!)");
}

#[test]
fn search_whitespace_handling() {
    let (_d, m) = create_english_index_manager();
    add_test_documents(&m, vec![Document::new("doc-1", "src-1", "hello world")]);
    assert!(!create_search_engine(&m).search("hello world", 10).unwrap().is_empty());
}

#[test]
fn search_long_text_content() {
    let (_d, m) = create_english_index_manager();
    let long_text = "programming ".repeat(100);
    add_test_documents(&m, vec![Document::new("doc-1", "src-1", &long_text)]);
    assert_eq!(create_search_engine(&m).search("programming", 10).unwrap().len(), 1);
}

#[test]
fn search_unicode_content() {
    let (_d, m) = create_english_index_manager();
    add_test_documents(&m, vec![Document::new("doc-1", "src-1", "Hello 世界 мир")]);
    let results = create_search_engine(&m).search("hello", 10).unwrap();
    assert_eq!(results.len(), 1);
    assert!(results[0].text.contains("世界"));
}

#[test]
fn duplicate_documents_are_skipped_english() {
    let (_d, m) = create_english_index_manager();
    let r1 = m.add_documents(&vec![Document::new("1", "src-1", "Tokyo is the capital of Japan")]).unwrap();
    assert_eq!(r1.added, 1);
    assert_eq!(r1.skipped_duplicates, 0);
    let r2 = m.add_documents(&vec![Document::new("1", "src-1", "Osaka is a major city")]).unwrap();
    assert_eq!(r2.added, 0);
    assert_eq!(r2.skipped_duplicates, 1);
}
