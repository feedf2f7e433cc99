//! Error taxonomy of the engine. Every error is a plain value and can be cloned.
use vstd::prelude::*;

use crate::config::Language;

verus! {

/// An invalid or inconsistent configuration value.
#[allow(inconsistent_fields)]
#[derive(Debug, Clone)]
pub enum ConfigError {
    EmptyLanguages,
    DefaultLanguageNotInLanguages { default_language: Language },
    InvalidSearchDefaultLimit { actual: usize },
    InvalidSearchMaxLimit { default_limit: usize, max_limit: usize },
    InvalidWriterMemoryBytes { min: u64, max: u64, actual: u64 },
    InvalidBatchCommitSize { actual: usize },
    InvalidDictionaryCacheDir { path: String },
    DictionaryCacheDirCreationFailed { path: String, message: String },
}


/// Acquiring or loading the morphological dictionary failed.
#[derive(Debug, Clone)]
pub enum DictionaryError {
    CacheDirNotFound,
    CacheDirCreationFailed(String),
    DictionaryNotFound(String),
    DownloadFailed(String),
    ValidationFailed(String),
    InvalidPath(String),
    InvalidPathOrInvalidPresetKind(String),
    VibratoLoad(String),
    PresetDictDownloadFailed(String),
}

/// Tokenization failed.
#[derive(Debug, Clone)]
pub enum TokenizerError {
    Dictionary(DictionaryError),
    InvalidInput { reason: String },
}

/// Opening, creating or writing an index failed.
#[allow(inconsistent_fields)]
#[derive(Debug, Clone)]
pub enum IndexerError {
    Tokenizer(TokenizerError),
    /// An error of the index library, with its message.
    Tantivy(String),
    InvalidIndexPath { path: String, message: String },
    IndexAlreadyExists(String),
    IndexNotFound(String),
    MissingJapaneseTokenizer,
    LanguageSchemaMismatch { expected: String, actual: String },
    MetadataSerialize { doc_id: String, message: String },
}

/// Searching failed.
#[derive(Debug, Clone)]
pub enum SearcherError {
    /// An error of the index library, with its message.
    Tantivy(String),
    InvalidQuery { reason: String },
    InvalidIndex { field: String, reason: String },
    MetadataDeserialize { doc_id: String, message: String },
}

/// Any error of the engine, wrapping the layer it came from.
#[derive(Debug, Clone)]
pub enum WakeruError {
    Dictionary(DictionaryError),
    Tokenizer(TokenizerError),
    Indexer(IndexerError),
    Searcher(SearcherError),
    UnsupportedLanguage { language: Language },
    Config(ConfigError),
}

} // verus!
