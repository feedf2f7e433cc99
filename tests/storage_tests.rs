use tantivy::schema::Field;
use wakeru::config::Language;
use wakeru::errors::{IndexerError, SearcherError};
use wakeru::indexer::{ingest_records, record_of};
use wakeru::models::{Document, JsonValue, Metadata};
use wakeru::schema::{build_schema, fields_from_lookups, schema_plan, assert_schema_matches_language, FieldKind};
use wakeru::searcher::materialize;
use wakeru::stored_json::{stored_from_node, StoredNode, from_stored, metadata_from_stored, metadata_to_members, to_stored, StoredValue};
use wakeru::tokenizer::{dtos_from_morphemes, Morpheme};

fn plan_names(language: Language) -> Vec<(String, FieldKind, String)> {
    schema_plan(language).into_iter().map(|f| (f.name, f.kind, f.tokenizer)).collect()
}

#[test]
fn schema_plan_binds_language_tokenizers() {
    let ja = plan_names(Language::Ja);
    assert_eq!(ja.len(), 5);
    assert_eq!(ja[2], ("text".to_string(), FieldKind::Body, "lang_ja".to_string()));
    assert_eq!(ja[3], ("metadata".to_string(), FieldKind::Object, "raw".to_string()));
    assert_eq!(ja[4], ("text_ngram".to_string(), FieldKind::UnstoredBody, "ja_ngram".to_string()));
    let en = plan_names(Language::En);
    assert_eq!(en.len(), 4);
    assert_eq!(en[0].0, "id");
    assert_eq!(en[0].1, FieldKind::Exact);
    assert_eq!(en[2].2, "lang_en");
}

#[test]
fn built_schema_records_language_tokenizer() {
    let (schema, fields) = build_schema(Language::En);
    assert!(fields.text_ngram.is_none());
    assert!(assert_schema_matches_language(&schema, Language::En).is_ok());
    match assert_schema_matches_language(&schema, Language::Ja) {
        Err(IndexerError::LanguageSchemaMismatch { expected, actual }) => {
            assert_eq!(expected, "lang_ja");
            assert_eq!(actual, "lang_en");
        }
        _ => panic!("expected LanguageSchemaMismatch"),
    }
    let (_, ja_fields) = build_schema(Language::Ja);
    assert!(ja_fields.text_ngram.is_some());
}

#[test]
fn field_lookups_require_the_four_fields() {
    let f = |i: u32| Ok(Field::from_field_id(i));
    let ok = fields_from_lookups(f(0), f(1), f(2), f(3), Err("absent".to_string())).unwrap();
    assert_eq!(ok.text, Field::from_field_id(2));
    assert!(ok.text_ngram.is_none());
    let err = fields_from_lookups(f(0), Err("no source_id".to_string()), f(2), Err("no metadata".to_string()), f(4));
    assert!(matches!(err, Err(IndexerError::Tantivy(m)) if m == "no source_id"));
}

#[test]
fn materialize_checks_required_fields() {
    let s = |t: &str| Some(t.to_string());
    assert!(matches!(materialize(None, s("src"), s("t"), None, 1), Err(SearcherError::InvalidIndex { field, .. }) if field == "id"));
    assert!(matches!(materialize(s("id"), None, s("t"), None, 1), Err(SearcherError::InvalidIndex { field, .. }) if field == "source_id"));
    let r = materialize(s("id"), s("src"), None, None, 7).unwrap();
    assert_eq!((r.doc_id.as_str(), r.source_id.as_str(), r.text.as_str(), r.score_bits), ("id", "src", "", 7));
    assert!(r.metadata.is_empty());
    let members = vec![("author".to_string(), StoredValue::Str("alice".to_string())), ("version".to_string(), StoredValue::I64(1))];
    let r = materialize(s("id"), s("src"), s("body"), Some(members), 0).unwrap();
    assert_eq!(r.text, "body");
    assert!(matches!(r.metadata.get("author"), Some(JsonValue::Str(a)) if a == "alice"));
    assert!(matches!(r.metadata.get("version"), Some(JsonValue::Number(n)) if n.as_i64() == Some(1)));
}

#[test]
fn stored_form_keeps_shape_and_integer_kinds() {
    let v = JsonValue::Array(vec![
        JsonValue::Number(serde_json::Number::from(-3i64)),
        JsonValue::Number(serde_json::Number::from(u64::MAX)),
        JsonValue::Number(serde_json::Number::from_f64(1.5).unwrap()),
        JsonValue::Object { keys: vec!["k".to_string()], values: vec![JsonValue::Null] },
    ]);
    match to_stored(&v) {
        StoredValue::Array(items) => {
            assert!(matches!(items[0], StoredValue::I64(-3)));
            assert!(matches!(items[1], StoredValue::U64(u) if u == u64::MAX));
            assert!(matches!(&items[2], StoredValue::Float(n) if n.as_f64() == Some(1.5)));
            assert!(matches!(&items[3], StoredValue::Object(k, vs) if k[0] == "k" && matches!(vs[0], StoredValue::Null)));
            let back = from_stored(&StoredValue::Array(items));
            assert!(matches!(back, JsonValue::Array(a) if a.len() == 4));
        }
        _ => panic!("expected an array"),
    }
}

#[test]
fn metadata_members_round_trip() {
    let mut md = Metadata::new();
    md.insert("a".to_string(), JsonValue::Bool(true));
    md.insert("b".to_string(), JsonValue::Str("x".to_string()));
    let members = metadata_to_members(&md);
    assert_eq!(members.len(), 2);
    let back = metadata_from_stored(members);
    assert!(matches!(back.get("a"), Some(JsonValue::Bool(true))));
    assert!(matches!(back.get("b"), Some(JsonValue::Str(x)) if x == "x"));
}

#[test]
fn records_of_kept_documents() {
    let docs = vec![
        Document::new("1", "s", "one").with_tag("t"),
        Document::new("2", "s", "two"),
        Document::new("3", "s", "three"),
    ];
    let recs = ingest_records(&docs, &vec![true, false, true], true);
    assert_eq!(recs.len(), 2);
    assert_eq!(recs[0].id, "1");
    assert_eq!(recs[0].ngram.as_deref(), Some("one"));
    assert_eq!(recs[0].members.as_ref().map(|m| m.len()), Some(1));
    assert_eq!(recs[1].id, "3");
    assert!(recs[1].members.is_none());
    let r = record_of(&docs[1], false);
    assert!(r.ngram.is_none());
    assert_eq!(r.text, "two");
}

#[test]
fn token_descriptions_cover_every_valid_morpheme() {
    let text = "東京の";
    let ms = vec![
        Morpheme { start: 0, end: 6, feature: "名詞,固有名詞,地域,一般,*,*,東京,トウキョウ,トーキョー".to_string() },
        Morpheme { start: 6, end: 9, feature: "助詞,連体化,*,*,*,*,の,ノ,ノ".to_string() },
        Morpheme { start: 7, end: 9, feature: "名詞".to_string() },
    ];
    let dtos = dtos_from_morphemes(text, &ms);
    assert_eq!(dtos.len(), 2);
    assert_eq!(dtos[0].surface, "東京");
    assert!(dtos[0].should_index);
    assert_eq!(dtos[0].lemma.as_deref(), Some("東京"));
    assert_eq!(dtos[1].surface, "の");
    assert!(!dtos[1].should_index);
    assert_eq!((dtos[1].start_byte, dtos[1].end_byte), (6, 9));
}

#[test]
fn stored_nodes_read_one_level() {
    assert!(matches!(stored_from_node(StoredNode::Unsupported, 3), Some(StoredValue::Null)));
    assert!(matches!(stored_from_node(StoredNode::Float(None), 3), Some(StoredValue::Null)));
    assert!(matches!(stored_from_node(StoredNode::I64(-4), 0), Some(StoredValue::I64(-4))));
    assert!(stored_from_node(StoredNode::Array(Vec::new()), 0).is_none());
    let members = vec![("k".to_string(), tantivy::schema::OwnedValue::Bool(true))];
    match stored_from_node(StoredNode::Object(members), 1) {
        Some(StoredValue::Object(k, v)) => {
            assert_eq!(k, vec!["k".to_string()]);
            assert!(matches!(v[0], StoredValue::Bool(true)));
        }
        _ => panic!("expected an object"),
    }
    let nested = vec![("k".to_string(), tantivy::schema::OwnedValue::Array(Vec::new()))];
    assert!(stored_from_node(StoredNode::Object(nested), 1).is_none());
}

#[test]
fn writer_budget_can_be_set() {
    let dir = tempfile::TempDir::new().unwrap();
    let mut m = wakeru::indexer::IndexManager::open_or_create(dir.path().to_str().unwrap(), Language::En, None).unwrap();
    m.set_writer_memory_bytes(20_000_000);
    let r = m.add_documents(&vec![Document::new("1", "s", "budget")]).unwrap();
    assert_eq!(r.added, 1);
}
