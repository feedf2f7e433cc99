use wakeru::config::{
    DictionaryConfig, DictionaryPreset, IndexConfig, Language, LogLevel, LoggingConfig, SearchConfig, WakeruConfig,
};
use wakeru::errors::{ConfigError, WakeruError};
use wakeru::models::Document;
use wakeru::service::WakeruService;

fn english_only(base: &std::path::Path) -> WakeruConfig {
    WakeruConfig {
        dictionary: DictionaryConfig { preset: DictionaryPreset::Ipadic, cache_dir: None },
        index: IndexConfig {
            data_dir: base.to_str().unwrap().to_string(),
            writer_memory_bytes: 50_000_000,
            batch_commit_size: 1000,
            languages: vec![Language::En],
            default_language: Language::En,
        },
        search: SearchConfig { default_limit: 10, max_limit: 100 },
        logging: LoggingConfig { level: LogLevel::Info },
    }
}

fn english_service() -> (tempfile::TempDir, WakeruService) {
    let dir = tempfile::TempDir::new().unwrap();
    let _sub = tempfile::Builder::new().prefix("en").rand_bytes(0).tempdir_in(dir.path()).unwrap();
    std::mem::forget(_sub);
    let service = WakeruService::init(&english_only(dir.path()), None).unwrap();
    (dir, service)
}

#[test]
fn service_initializes_with_english_only() {
    let (_d, service) = english_service();
    assert_eq!(service.default_language(), Language::En);
    assert!(service.is_language_supported(Language::En));
    assert!(!service.is_language_supported(Language::Ja));
    assert_eq!(service.supported_languages(), vec![Language::En]);
}

#[test]
fn service_index_manager_accessor() {
    let (_d, service) = english_service();
    assert_eq!(service.index_manager(Language::En).unwrap().language(), Language::En);
    assert!(service.index_manager(Language::Ja).is_none());
    assert_eq!(service.search_engine(Language::En).unwrap().language(), Language::En);
    assert!(service.search_engine(Language::Ja).is_none());
}

#[test]
fn unsupported_language_is_rejected() {
    let (_d, service) = english_service();
    let r = service.search_tokens_or_with_language(Language::Ja, "x", 10);
    assert!(matches!(r, Err(WakeruError::UnsupportedLanguage { language: Language::Ja })));
    let r = service.index_documents_with_language(Language::Ja, &vec![Document::new("1", "s", "t")]);
    assert!(matches!(r, Err(WakeruError::UnsupportedLanguage { language: Language::Ja })));
}

#[test]
fn service_full_workflow_index_and_search() {
    let dir = tempfile::TempDir::new().unwrap();
    let _sub = tempfile::Builder::new().prefix("en").rand_bytes(0).tempdir_in(dir.path()).unwrap();
    let config = english_only(dir.path());
    {
        let service = WakeruService::init(&config, None).unwrap();
        service
            .index_documents(&vec![
                Document::new("doc-1", "src-1", "Tokyo is the capital of Japan"),
                Document::new("doc-2", "src-1", "Osaka is a major city"),
            ])
            .unwrap();
    }
    let service = WakeruService::init(&config, None).unwrap();
    let r = service.search("tokyo", 10).unwrap();
    assert_eq!(r.len(), 1);
    assert_eq!(r[0].doc_id, "doc-1");
    let r = service.search_tokens_or("osaka", 10).unwrap();
    assert_eq!(r.len(), 1);
    assert_eq!(r[0].doc_id, "doc-2");
    assert!(service.search_tokens_or("", 10).unwrap().is_empty());
}

#[test]
fn invalid_writer_memory_stops_init() {
    let dir = tempfile::TempDir::new().unwrap();
    let mut c = english_only(dir.path());
    c.index.writer_memory_bytes = 999_999;
    assert!(matches!(WakeruService::init(&c, None), Err(WakeruError::Config(ConfigError::InvalidWriterMemoryBytes { .. }))));
}

#[test]
fn japanese_without_analyzer_fails() {
    let dir = tempfile::TempDir::new().unwrap();
    let mut c = english_only(dir.path());
    c.index.languages = vec![Language::Ja];
    c.index.default_language = Language::Ja;
    let _sub = tempfile::Builder::new().prefix("ja").rand_bytes(0).tempdir_in(dir.path()).unwrap();
    std::mem::forget(_sub);
    assert!(matches!(
        WakeruService::init(&c, None),
        Err(WakeruError::Indexer(wakeru::errors::IndexerError::MissingJapaneseTokenizer))
    ));
}

#[test]
fn service_supported_languages() {
    let (_d, service) = english_service();
    let languages = service.supported_languages();
    assert_eq!(languages.len(), 1);
    assert!(languages.contains(&Language::En));
}

#[test]
fn service_search_engine_accessor() {
    let (_d, service) = english_service();
    let engine = service.search_engine(Language::En);
    assert!(engine.is_some());
    assert_eq!(engine.unwrap().language(), Language::En);
    assert!(service.search_engine(Language::Ja).is_none());
}

#[test]
fn service_is_language_supported() {
    let (_d, service) = english_service();
    assert!(service.is_language_supported(Language::En));
    assert!(!service.is_language_supported(Language::Ja));
}

#[test]
fn service_index_documents_default_language() {
    let (_d, service) = english_service();
    assert!(service.index_documents(&vec![Document::new("doc-1", "src-1", "Hello world")]).is_ok());
}

#[test]
fn service_index_documents_with_language() {
    let (_d, service) = english_service();
    assert!(service.index_documents_with_language(Language::En, &vec![Document::new("doc-1", "src-1", "Hello world")]).is_ok());
}

#[test]
fn service_index_documents_unsupported_language() {
    let (_d, service) = english_service();
    let r = service.index_documents_with_language(Language::Ja, &vec![Document::new("doc-1", "src-1", "Hello world")]);
    assert!(matches!(r, Err(WakeruError::UnsupportedLanguage { .. })));
}

#[test]
fn service_index_documents_with_metadata() {
    let (_d, service) = english_service();
    let docs = vec![Document::new("doc-1", "src-1", "Tokyo is the capital")
        .with_metadata("author", wakeru::models::JsonValue::Str("alice".to_string()))
        .with_tag("category:geo")];
    assert!(service.index_documents(&docs).is_ok());
}

#[test]
fn service_search_default_language() {
    let (_d, service) = english_service();
    service.index_documents(&vec![Document::new("doc-1", "src-1", "Hello world")]).unwrap();
    assert!(service.search("hello", 10).is_ok());
}

#[test]
fn service_search_with_language() {
    let (_d, service) = english_service();
    service.index_documents(&vec![Document::new("doc-1", "src-1", "Hello world")]).unwrap();
    assert!(service.search_with_language(Language::En, "hello", 10).is_ok());
}

#[test]
fn service_search_unsupported_language() {
    let (_d, service) = english_service();
    assert!(matches!(service.search_with_language(Language::Ja, "hello", 10), Err(WakeruError::UnsupportedLanguage { .. })));
}

#[test]
fn service_search_tokens_or_default_language() {
    let (_d, service) = english_service();
    service.index_documents(&vec![Document::new("doc-1", "src-1", "Hello world")]).unwrap();
    assert!(service.search_tokens_or("hello", 10).is_ok());
}

#[test]
fn service_search_tokens_or_with_language() {
    let (_d, service) = english_service();
    service.index_documents(&vec![Document::new("doc-1", "src-1", "Hello world")]).unwrap();
    assert!(service.search_tokens_or_with_language(Language::En, "hello", 10).is_ok());
}

#[test]
fn service_search_tokens_or_unsupported_language() {
    let (_d, service) = english_service();
    assert!(matches!(
        service.search_tokens_or_with_language(Language::Ja, "hello", 10),
        Err(WakeruError::UnsupportedLanguage { .. })
    ));
}

fn persistent_english_config() -> (tempfile::TempDir, WakeruConfig) {
    let dir = tempfile::TempDir::new().unwrap();
    let sub = tempfile::Builder::new().prefix("en").rand_bytes(0).tempdir_in(dir.path()).unwrap();
    std::mem::forget(sub);
    let config = english_only(dir.path());
    (dir, config)
}

#[test]
fn service_full_workflow_with_metadata() {
    let (_d, config) = persistent_english_config();
    {
        let service = WakeruService::init(&config, None).unwrap();
        let docs = vec![Document::new("doc-1", "src-1", "Tokyo is the capital")
            .with_metadata("author", wakeru::models::JsonValue::Str("alice".to_string()))
            .with_tag("category:geo")];
        service.index_documents(&docs).unwrap();
    }
    let service = WakeruService::init(&config, None).unwrap();
    let results = service.search("tokyo", 10).unwrap();
    assert_eq!(results.len(), 1);
    assert!(matches!(results[0].metadata.get("author"), Some(wakeru::models::JsonValue::Str(a)) if a == "alice"));
    assert_eq!(results[0].metadata.tags(), vec!["category:geo".to_string()]);
}

#[test]
fn service_invalid_query_returns_error() {
    let (_d, service) = english_service();
    assert!(matches!(service.search("(", 10), Err(WakeruError::Searcher(_))));
}

#[test]
fn service_duplicate_documents_are_skipped() {
    let (_d, config) = persistent_english_config();
    {
        let service = WakeruService::init(&config, None).unwrap();
        service.index_documents(&vec![Document::new("doc-1", "src-1", "First content")]).unwrap();
        service.index_documents(&vec![Document::new("doc-1", "src-1", "Second content")]).unwrap();
    }
    let service = WakeruService::init(&config, None).unwrap();
    let results = service.search("content", 10).unwrap();
    assert_eq!(results.len(), 1);
    assert_eq!(results[0].text, "First content");
}

#[test]
fn service_init_validates_config() {
    let (_d, mut config) = persistent_english_config();
    config.index.languages = Vec::new();
    assert!(WakeruService::init(&config, None).is_err());
}
