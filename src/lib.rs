//! Language-aware full-text indexing and retrieval with verified planning logic.
pub mod analysis;
pub mod api;
pub mod config;
pub mod errors;
pub mod indexer;
pub mod ingest;
pub mod models;
pub mod report;
pub mod schema;
pub mod searcher;
pub mod service;
pub mod stored_json;
pub mod tokenization;
pub mod tokenizer;
