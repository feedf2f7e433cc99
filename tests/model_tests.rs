use wakeru::models::{Document, JsonValue, Metadata, TAGS_KEY};

fn s(v: &str) -> JsonValue {
    JsonValue::Str(v.to_string())
}

#[test]
fn tags_key_is_tags() {
    assert_eq!(TAGS_KEY, "tags");
}

#[test]
fn document_new_creates_empty_metadata() {
    let doc = Document::new("doc-1", "src-1", "sample text");
    assert_eq!(doc.id, "doc-1");
    assert_eq!(doc.source_id, "src-1");
    assert_eq!(doc.text, "sample text");
    assert!(doc.metadata.is_empty());
}

#[test]
fn with_tag_creates_tags_array_when_missing() {
    let doc = Document::new("id", "src", "text").with_tag("foo");
    assert_eq!(doc.tags(), vec!["foo".to_string()]);
}

#[test]
fn with_tag_appends_to_existing_tags() {
    let doc = Document::new("id", "src", "text").with_tag("foo").with_tag("bar");
    assert_eq!(doc.tags(), vec!["foo".to_string(), "bar".to_string()]);
}

#[test]
fn with_tag_allows_duplicate_tags() {
    let doc = Document::new("id", "src", "text").with_tag("dup").with_tag("dup");
    assert_eq!(doc.tags(), vec!["dup".to_string(), "dup".to_string()]);
}

#[test]
fn with_tag_overwrites_non_array_tags() {
    let doc = Document::new("id", "src", "text").with_metadata(TAGS_KEY, s("not-an-array"));
    assert!(doc.tags().is_empty());
    let doc = doc.with_tag("fixed");
    assert_eq!(doc.tags(), vec!["fixed".to_string()]);
}

#[test]
fn with_tag_overwrites_null_tags() {
    let doc = Document::new("id", "src", "text").with_metadata(TAGS_KEY, JsonValue::Null).with_tag("tag1");
    assert_eq!(doc.tags(), vec!["tag1".to_string()]);
}

#[test]
fn with_tags_adds_multiple_tags() {
    let doc = Document::new("id", "src", "text").with_tags(vec!["a", "b", "c"]);
    assert_eq!(doc.tags(), vec!["a".to_string(), "b".to_string(), "c".to_string()]);
}

#[test]
fn with_tags_accepts_empty_iterator() {
    let doc = Document::new("id", "src", "text").with_tags(Vec::new());
    assert!(doc.tags().is_empty());
}

#[test]
fn with_tags_can_be_chained_with_with_tag() {
    let doc = Document::new("id", "src", "text").with_tag("first").with_tags(vec!["second", "third"]);
    assert_eq!(doc.tags(), vec!["first".to_string(), "second".to_string(), "third".to_string()]);
}

#[test]
fn tags_filters_out_non_string_elements() {
    let arr = JsonValue::Array(vec![s("valid"), JsonValue::Bool(true), JsonValue::Null, s("also-valid")]);
    let doc = Document::new("id", "src", "text").with_metadata(TAGS_KEY, arr);
    assert_eq!(doc.tags(), vec!["valid".to_string(), "also-valid".to_string()]);
}

#[test]
fn with_metadata_does_not_conflict_with_tags() {
    let doc = Document::new("id", "src", "text").with_metadata("author", s("alice")).with_tag("rust");
    assert!(matches!(doc.metadata.get("author"), Some(JsonValue::Str(a)) if a == "alice"));
    assert_eq!(doc.tags(), vec!["rust".to_string()]);
    assert_eq!(doc.metadata.len(), 2);
}

#[test]
fn with_metadata_can_overwrite_tags_key() {
    let doc = Document::new("id", "src", "text").with_tag("valid-tag").with_metadata(TAGS_KEY, s("broken"));
    assert!(doc.tags().is_empty());
}

#[test]
fn with_tag_restores_broken_tags_after_with_metadata() {
    let doc = Document::new("id", "src", "text")
        .with_tag("first")
        .with_metadata(TAGS_KEY, s("broken"))
        .with_tag("restored");
    assert_eq!(doc.tags(), vec!["restored".to_string()]);
}

#[test]
fn insert_replaces_existing_key() {
    let mut m = Metadata::new();
    m.insert("key".to_string(), s("original"));
    m.insert("key".to_string(), s("overwritten"));
    assert_eq!(m.len(), 1);
    assert!(matches!(m.get("key"), Some(JsonValue::Str(v)) if v == "overwritten"));
    assert!(m.get("other").is_none());
}

#[test]
fn with_metadata_map_merges_entries() {
    let mut map = Metadata::new();
    map.insert("key1".to_string(), s("value1"));
    map.insert("key2".to_string(), JsonValue::Number(serde_json::Number::from(42u64)));
    let doc = Document::new("id", "src", "text").with_metadata_map(map);
    assert!(matches!(doc.metadata.get("key1"), Some(JsonValue::Str(v)) if v == "value1"));
    assert!(matches!(doc.metadata.get("key2"), Some(JsonValue::Number(n)) if n.as_u64() == Some(42)));
}

#[test]
fn with_metadata_map_overwrites_existing() {
    let mut map = Metadata::new();
    map.insert("key".to_string(), s("overwritten"));
    let doc = Document::new("id", "src", "text")
        .with_metadata("key", s("original"))
        .with_metadata("kept", s("yes"))
        .with_metadata_map(map);
    assert!(matches!(doc.metadata.get("key"), Some(JsonValue::Str(v)) if v == "overwritten"));
    assert!(matches!(doc.metadata.get("kept"), Some(JsonValue::Str(v)) if v == "yes"));
    assert_eq!(doc.metadata.len(), 2);
}

#[test]
fn document_new_accepts_string_and_str() {
    let doc1 = Document::new(&String::from("id1"), &String::from("src1"), &String::from("text1"));
    assert_eq!(doc1.id, "id1");
    let doc2 = Document::new("id2", "src2", "text2");
    assert_eq!(doc2.id, "id2");
}

#[test]
fn with_metadata_adds_single_entry() {
    let doc = Document::new("id", "src", "text").with_metadata("author", s("alice"));
    assert!(matches!(doc.metadata.get("author"), Some(JsonValue::Str(v)) if v == "alice"));
}

#[test]
fn with_metadata_chain_adds_multiple_entries() {
    let doc = Document::new("id", "src", "text")
        .with_metadata("author", s("alice"))
        .with_metadata("version", JsonValue::Number(serde_json::Number::from(1u64)));
    assert!(matches!(doc.metadata.get("author"), Some(JsonValue::Str(v)) if v == "alice"));
    assert!(matches!(doc.metadata.get("version"), Some(JsonValue::Number(n)) if n.as_u64() == Some(1)));
}

#[test]
fn with_tag_overwrites_object_tags() {
    let obj = JsonValue::Object { keys: vec!["nested".to_string()], values: vec![s("object")] };
    let doc = Document::new("id", "src", "text").with_metadata(TAGS_KEY, obj).with_tag("tag1");
    assert_eq!(doc.tags(), vec!["tag1".to_string()]);
}

#[test]
fn tags_returns_empty_when_not_set() {
    assert!(Document::new("id", "src", "text").tags().is_empty());
}

#[test]
fn tags_returns_empty_when_value_is_not_array() {
    let doc = Document::new("id", "src", "text").with_metadata(TAGS_KEY, s("string-value"));
    assert!(doc.tags().is_empty());
}

#[test]
fn tags_returns_empty_when_value_is_null() {
    let doc = Document::new("id", "src", "text").with_metadata(TAGS_KEY, JsonValue::Null);
    assert!(doc.tags().is_empty());
}

#[test]
fn tags_returns_empty_for_empty_array() {
    let doc = Document::new("id", "src", "text").with_metadata(TAGS_KEY, JsonValue::Array(Vec::new()));
    assert!(doc.tags().is_empty());
}
