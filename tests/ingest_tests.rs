use wakeru::indexer::IndexManager;
use wakeru::ingest::plan_ingest;
use wakeru::models::{Document, JsonValue};
use wakeru::report::AddDocumentsReport;
use wakeru::searcher::SearchEngine;
use wakeru::config::Language;
use wakeru::errors::IndexerError;

fn docs(ids: &[&str]) -> Vec<Document> {
    ids.iter().map(|i| Document::new(i, "src", "body")).collect()
}

#[test]
fn report_counts() {
    let mut r = AddDocumentsReport::default();
    assert!(r.is_all_added());
    r.record_total();
    r.record_added();
    r.record_total();
    r.record_skipped();
    assert_eq!((r.total, r.added, r.skipped_duplicates), (2, 1, 1));
    assert!(!r.is_all_added());
}

#[test]
fn plan_skips_repeats_within_batch_and_known_ids() {
    let batch = docs(&["a", "b", "a", "c", "b"]);
    let plan = plan_ingest(&batch, &vec![false, false, false, true, false]);
    assert_eq!(plan.keep, vec![true, true, false, false, false]);
    assert_eq!(plan.report.total, 5);
    assert_eq!(plan.report.added, 2);
    assert_eq!(plan.report.skipped_duplicates, 3);
}

#[test]
fn plan_of_reingest_adds_nothing() {
    let batch = docs(&["x", "y"]);
    let plan = plan_ingest(&batch, &vec![true, true]);
    assert_eq!(plan.report.added, 0);
    assert_eq!(plan.report.skipped_duplicates, 2);
}

#[test]
fn plan_of_empty_batch() {
    let plan = plan_ingest(&Vec::new(), &Vec::new());
    assert_eq!((plan.report.total, plan.report.added, plan.report.skipped_duplicates), (0, 0, 0));
}

fn english_index() -> (tempfile::TempDir, IndexManager) {
    let dir = tempfile::TempDir::new().unwrap();
    let m = IndexManager::open_or_create(dir.path().to_str().unwrap(), Language::En, None).unwrap();
    (dir, m)
}

fn ids_of(results: &[wakeru::searcher::SearchResult]) -> Vec<String> {
    results.iter().map(|r| r.doc_id.clone()).collect()
}

#[test]
fn missing_japanese_tokenizer_error() {
    let dir = tempfile::TempDir::new().unwrap();
    let result = IndexManager::open_or_create(dir.path().to_str().unwrap(), Language::Ja, None);
    assert!(matches!(result, Err(IndexerError::MissingJapaneseTokenizer)));
}

#[test]
fn open_or_create_english_and_add_documents() {
    let (_dir, m) = english_index();
    assert_eq!(m.language(), Language::En);
    assert!(m.fields().text_ngram.is_none());
    let batch = vec![
        Document::new("1", "src-1", "Tokyo is the capital of Japan").with_tag("category:geo"),
        Document::new("2", "src-1", "Osaka is a major city in western Japan").with_tag("category:geo"),
    ];
    let report = m.add_documents(&batch).unwrap();
    assert_eq!(report.added, 2);
    assert_eq!(report.skipped_duplicates, 0);
}

#[test]
fn duplicate_suppression_keeps_first_version() {
    let (_dir, m) = english_index();
    let r1 = m.add_documents(&vec![Document::new("X", "s", "first")]).unwrap();
    assert_eq!((r1.added, r1.skipped_duplicates), (1, 0));
    let r2 = m.add_documents(&vec![Document::new("X", "s", "second")]).unwrap();
    assert_eq!((r2.added, r2.skipped_duplicates), (0, 1));
    let engine = SearchEngine::new(m.index(), *m.fields(), Language::En).unwrap();
    assert_eq!(ids_of(&engine.search_tokens_or("first", 10).unwrap()), vec!["X".to_string()]);
    assert!(engine.search_tokens_or("second", 10).unwrap().is_empty());
}

#[test]
fn reingest_of_same_batch_skips_everything() {
    let (_dir, m) = english_index();
    let batch = vec![Document::new("a", "s", "alpha"), Document::new("b", "s", "beta"), Document::new("a", "s", "again")];
    let r1 = m.add_documents(&batch).unwrap();
    assert_eq!((r1.total, r1.added, r1.skipped_duplicates), (3, 2, 1));
    let r2 = m.add_documents(&batch).unwrap();
    assert_eq!((r2.total, r2.added, r2.skipped_duplicates), (3, 0, 3));
}

#[test]
fn empty_text_is_accepted() {
    let (_dir, m) = english_index();
    let r = m.add_documents(&vec![Document::new("e", "s", "")]).unwrap();
    assert_eq!(r.added, 1);
}

#[test]
fn reopening_keeps_documents_and_checks_language() {
    let dir = tempfile::TempDir::new().unwrap();
    let path = dir.path().to_str().unwrap();
    {
        let m = IndexManager::open_or_create(path, Language::En, None).unwrap();
        m.add_documents(&vec![Document::new("k", "s", "kept")]).unwrap();
    }
    let m = IndexManager::open_or_create(path, Language::En, None).unwrap();
    let r = m.add_documents(&vec![Document::new("k", "s", "kept")]).unwrap();
    assert_eq!(r.skipped_duplicates, 1);
    let analyzer = tantivy::tokenizer::TextAnalyzer::from(tantivy::tokenizer::SimpleTokenizer::default());
    let err = IndexManager::open_or_create(path, Language::Ja, Some(analyzer));
    match err {
        Err(IndexerError::LanguageSchemaMismatch { expected, actual }) => {
            assert_eq!(expected, "lang_ja");
            assert_eq!(actual, "lang_en");
        }
        _ => panic!("expected LanguageSchemaMismatch"),
    }
}

#[test]
fn missing_directory_is_an_invalid_path() {
    let dir = tempfile::TempDir::new().unwrap();
    let path = dir.path().join("absent");
    let r = IndexManager::open_or_create(path.to_str().unwrap(), Language::En, None);
    assert!(matches!(r, Err(IndexerError::InvalidIndexPath { .. })));
}

#[test]
fn english_bm25_rarity() {
    let (_dir, m) = english_index();
    m.add_documents(&vec![
        Document::new("A", "s", "Rust programming language"),
        Document::new("B", "s", "Python programming language"),
    ])
    .unwrap();
    let engine = SearchEngine::new(m.index(), *m.fields(), Language::En).unwrap();
    let results = engine.search("rust", 10).unwrap();
    assert_eq!(ids_of(&results), vec!["A".to_string()]);
    assert!(f32::from_bits(results[0].score_bits) > 0.0);
    let results = engine.search_tokens_or("rust", 10).unwrap();
    assert_eq!(ids_of(&results), vec!["A".to_string()]);
}

#[test]
fn case_folding_in_english() {
    let (_dir, m) = english_index();
    m.add_documents(&vec![Document::new("C", "s", "TOKYO CAPITAL")]).unwrap();
    let engine = SearchEngine::new(m.index(), *m.fields(), Language::En).unwrap();
    assert_eq!(ids_of(&engine.search_tokens_or("tokyo", 10).unwrap()), vec!["C".to_string()]);
    assert_eq!(ids_of(&engine.search_tokens_or("TOKYO", 10).unwrap()), vec!["C".to_string()]);
}

#[test]
fn empty_query_gives_no_results() {
    let (_dir, m) = english_index();
    m.add_documents(&vec![Document::new("C", "s", "anything")]).unwrap();
    let engine = SearchEngine::new(m.index(), *m.fields(), Language::En).unwrap();
    assert!(engine.search_tokens_or("", 10).unwrap().is_empty());
    assert!(engine.search_tokens_or("   ", 10).unwrap().is_empty());
}

#[test]
fn invalid_query_syntax_is_reported() {
    let (_dir, m) = english_index();
    let engine = SearchEngine::new(m.index(), *m.fields(), Language::En).unwrap();
    assert!(matches!(engine.search("title:(", 10), Err(wakeru::errors::SearcherError::InvalidQuery { .. })));
}

#[test]
fn metadata_preservation() {
    let (_dir, m) = english_index();
    let doc = Document::new("Y", "s", "Tokyo is the capital")
        .with_metadata("author", JsonValue::Str("alice".to_string()))
        .with_metadata("version", JsonValue::Number(serde_json::Number::from(1u64)))
        .with_tag("category:geo");
    m.add_documents(&vec![doc]).unwrap();
    let engine = SearchEngine::new(m.index(), *m.fields(), Language::En).unwrap();
    let results = engine.search_tokens_or("tokyo", 10).unwrap();
    assert_eq!(results.len(), 1);
    let md = &results[0].metadata;
    assert_eq!(md.len(), 3);
    assert!(matches!(md.get("author"), Some(JsonValue::Str(a)) if a == "alice"));
    assert!(matches!(md.get("version"), Some(JsonValue::Number(n)) if n.as_i64() == Some(1)));
    assert_eq!(md.tags(), vec!["category:geo".to_string()]);
    assert_eq!(results[0].source_id, "s");
    assert_eq!(results[0].text, "Tokyo is the capital");
}

#[test]
fn english_query_terms_are_folded_stemmed_and_distinct() {
    let (_dir, m) = english_index();
    let engine = SearchEngine::new(m.index(), *m.fields(), Language::En).unwrap();
    let terms = engine.tokenize_query("Running RUST, rust runs").unwrap();
    assert_eq!(terms, vec!["run".to_string(), "rust".to_string()]);
    assert_eq!(engine.tokenize_query("Running RUST, rust runs").unwrap(), terms);
    assert!(engine.tokenize_query("").unwrap().is_empty());
}

fn japanese_index_with(analyzer: tantivy::tokenizer::TextAnalyzer) -> (tempfile::TempDir, IndexManager) {
    let dir = tempfile::TempDir::new().unwrap();
    let m = IndexManager::open_or_create(dir.path().to_str().unwrap(), Language::Ja, Some(analyzer)).unwrap();
    (dir, m)
}

#[test]
fn japanese_single_char_query_is_served_by_ngram_field() {
    // A whitespace-style analyzer keeps the whole sentence as one term, so only the
    // one-character N-gram field can match the query.
    let analyzer = tantivy::tokenizer::TextAnalyzer::from(tantivy::tokenizer::SimpleTokenizer::default());
    let (_dir, m) = japanese_index_with(analyzer);
    assert!(m.fields().text_ngram.is_some());
    m.add_documents(&vec![Document::new("2", "s", "京都には金閣寺や銀閣寺があります")]).unwrap();
    let engine = SearchEngine::new(m.index(), *m.fields(), Language::Ja).unwrap();
    let results = engine.search_tokens_or("寺", 10).unwrap();
    assert_eq!(ids_of(&results), vec!["2".to_string()]);
    assert!(engine.search_tokens_or("駅", 10).unwrap().is_empty());
}

#[test]
fn japanese_multi_char_term_ranks_matching_document_first() {
    // A character-bigram analyzer stands in for the morphological one.
    let bigrams = tantivy::tokenizer::NgramTokenizer::new(2, 2, false).unwrap();
    let (_dir, m) = japanese_index_with(tantivy::tokenizer::TextAnalyzer::from(bigrams));
    m.add_documents(&vec![
        Document::new("1", "s", "東京タワーは東京の観光名所です").with_tag("category:tourism"),
        Document::new("2", "s", "京都には金閣寺や銀閣寺があります"),
        Document::new("3", "s", "大阪城は大阪の名所です"),
        Document::new("4", "s", "札幌の雪まつり"),
        Document::new("5", "s", "沖縄の海はきれいです"),
    ])
    .unwrap();
    let engine = SearchEngine::new(m.index(), *m.fields(), Language::Ja).unwrap();
    let results = engine.search_tokens_or("東京", 10).unwrap();
    assert_eq!(results[0].doc_id, "1");
    assert!(f32::from_bits(results[0].score_bits) > 0.0);
    assert_eq!(results[0].metadata.tags(), vec!["category:tourism".to_string()]);
}
