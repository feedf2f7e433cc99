//! Per-language field layout of an index and its tokenizer bindings.
use vstd::prelude::*;

use crate::config::Language;
use crate::errors::IndexerError;

use tantivy::schema::IndexRecordOption::{Basic, WithFreqsAndPositions};
use tantivy::schema::{
    Field, JsonObjectOptions, Schema, SchemaBuilder, TextFieldIndexing, TextOptions, STORED, STRING,
};

verus! {

#[verifier::external_type_specification]
#[verifier::external_body]
pub struct ExSchema(Schema);

#[verifier::external_type_specification]
#[verifier::external_body]
pub struct ExField(Field);

/// Relies on tantivy's `Clone` for `Field`: a copy of the same field handle.
pub assume_specification[ <Field as Clone>::clone ](f: &Field) -> (r: Field)
    ensures
        r == *f,
;

/// The handles of the fields of one index. `text_ngram` is present only where the
/// language has an N-gram tokenizer, or the opened index has that field.
#[derive(Debug, Clone, Copy)]
pub struct SchemaFields {
    pub id: Field,
    pub source_id: Field,
    pub text: Field,
    pub metadata: Field,
    pub text_ngram: Option<Field>,
}

/// How a field is declared.
#[derive(Debug, Clone, Copy, PartialEq, Eq, Structural)]
pub enum FieldKind {
    /// Untokenized and stored, for exact-term lookup.
    Exact,
    /// Tokenized, stored, indexed with frequencies and positions.
    Body,
    /// Tokenized, not stored, indexed with frequencies and positions.
    UnstoredBody,
    /// A stored JSON object, indexed with record option `Basic`.
    Object,
}

/// One field of a schema: its name, how it is declared, and the name of the tokenizer
/// that indexes it (unused for `Exact` fields).
#[derive(Debug, Clone)]
pub struct FieldSpec {
    pub name: String,
    pub kind: FieldKind,
    pub tokenizer: String,
}

/// The plain view of a field declaration.
pub open spec fn field_view(f: FieldSpec) -> (Seq<char>, FieldKind, Seq<char>) {
    (f.name@, f.kind, f.tokenizer@)
}

/// Whether no two fields share a name.
pub open spec fn distinct_names(fs: Seq<FieldSpec>) -> bool {
    forall|i: int, j: int| 0 <= i < j < fs.len() ==> #[trigger] fs[i].name@ != #[trigger] fs[j].name@
}

/// The field layout of an index for `language`: `id` and `source_id` exact, `text` bound
/// to the language's tokenizer, `metadata` a JSON object bound to the identity tokenizer,
/// and, for a language with an N-gram tokenizer, an unstored `text_ngram` bound to it.
pub open spec fn spec_schema_plan(language: Language) -> Seq<(Seq<char>, FieldKind, Seq<char>)> {
    let base = seq![
        ("id"@, FieldKind::Exact, Seq::<char>::empty()),
        ("source_id"@, FieldKind::Exact, Seq::<char>::empty()),
        ("text"@, FieldKind::Body, language.spec_text_tokenizer_name()),
        ("metadata"@, FieldKind::Object, RAW_TOKENIZER@),
    ];
    match language.spec_ngram_tokenizer_name() {
        Some(n) => base.push(("text_ngram"@, FieldKind::UnstoredBody, n)),
        None => base,
    }
}

/// Whether tantivy accepts `n` as a field name: non-empty and not starting with `-`.
pub open spec fn valid_field_name(n: Seq<char>) -> bool {
    n.len() > 0 && n[0] != '-'
}

#[verifier::external_type_specification]
#[verifier::external_body]
pub struct ExSchemaBuilder(SchemaBuilder);

/// The names of the fields added to a schema builder, in order.
pub uninterp spec fn builder_names(b: SchemaBuilder) -> Seq<Seq<char>>;

/// Relies on tantivy's `Schema::builder`: a builder with no field.
#[verifier::external_body]
fn schema_builder() -> (r: SchemaBuilder)
    ensures
        builder_names(r) == Seq::<Seq<char>>::empty(),
{
    Schema::builder()
}

/// Relies on tantivy's `SchemaBuilder::add_text_field` with `STRING | STORED`. It panics on a
/// repeated or invalid name, which `requires` leaves out.
#[verifier::external_body]
fn add_exact_field(b: &mut SchemaBuilder, name: &str) -> (r: Field)
    requires
        valid_field_name(name@),
        !builder_names(*old(b)).contains(name@),
    ensures
        builder_names(*final(b)) == builder_names(*old(b)).push(name@),
{
    b.add_text_field(name, STRING | STORED)
}

/// Relies on tantivy's `SchemaBuilder::add_text_field` with stored text, indexed with
/// frequencies and positions by the tokenizer registered as `tokenizer`. It panics on a
/// repeated or invalid name, which `requires` leaves out.
#[verifier::external_body]
fn add_body_field(b: &mut SchemaBuilder, name: &str, tokenizer: &str) -> (r: Field)
    requires
        valid_field_name(name@),
        !builder_names(*old(b)).contains(name@),
    ensures
        builder_names(*final(b)) == builder_names(*old(b)).push(name@),
{
    let ix = TextFieldIndexing::default().set_tokenizer(tokenizer).set_index_option(WithFreqsAndPositions);
    b.add_text_field(name, TextOptions::default().set_indexing_options(ix).set_stored())
}

/// Relies on tantivy's `SchemaBuilder::add_text_field` with text that is not stored,
/// indexed with frequencies and positions by the tokenizer registered as `tokenizer`. It
/// panics on a repeated or invalid name, which `requires` leaves out.
#[verifier::external_body]
fn add_unstored_body_field(b: &mut SchemaBuilder, name: &str, tokenizer: &str) -> (r: Field)
    requires
        valid_field_name(name@),
        !builder_names(*old(b)).contains(name@),
    ensures
        builder_names(*final(b)) == builder_names(*old(b)).push(name@),
{
    let ix = TextFieldIndexing::default().set_tokenizer(tokenizer).set_index_option(WithFreqsAndPositions);
    b.add_text_field(name, TextOptions::default().set_indexing_options(ix))
}

/// Relies on tantivy's `SchemaBuilder::add_json_field` with a stored object whose values
/// are indexed by the tokenizer registered as `tokenizer`, record option `Basic`. It
/// panics on a repeated or invalid name, which `requires` leaves out.
#[verifier::external_body]
fn add_object_field(b: &mut SchemaBuilder, name: &str, tokenizer: &str) -> (r: Field)
    requires
        valid_field_name(name@),
        !builder_names(*old(b)).contains(name@),
    ensures
        builder_names(*final(b)) == builder_names(*old(b)).push(name@),
{
    let ix = TextFieldIndexing::default().set_tokenizer(tokenizer).set_index_option(Basic);
    b.add_json_field(name, JsonObjectOptions::default().set_stored().set_indexing_options(ix))
}

/// Relies on tantivy's `SchemaBuilder::build`.
#[verifier::external_body]
fn finish_schema(b: SchemaBuilder) -> (r: Schema) {
    b.build()
}

/// Declares the planned fields in order, each with the options of its kind, and returns
/// their handles in the same order.
fn add_planned_fields(b: &mut SchemaBuilder, plan: &Vec<FieldSpec>) -> (r: Vec<Field>)
    requires
        builder_names(*old(b)) == Seq::<Seq<char>>::empty(),
        distinct_names(plan@),
        forall|i: int| 0 <= i < plan@.len() ==> valid_field_name(#[trigger] plan@[i].name@),
    ensures
        r@.len() == plan@.len(),
{
    let mut out: Vec<Field> = Vec::new();
    let mut i: usize = 0;
    while i < plan.len()
        invariant
            0 <= i <= plan@.len(),
            out@.len() == i,
            distinct_names(plan@),
            forall|k: int| 0 <= k < plan@.len() ==> valid_field_name(#[trigger] plan@[k].name@),
            builder_names(*b) == Seq::new(i as nat, |k: int| plan@[k].name@),
        decreases plan@.len() - i,
    {
        let f = &plan[i];
        proof {
            if builder_names(*b).contains(f.name@) {
                let k = choose|k: int| 0 <= k < builder_names(*b).len() && builder_names(*b)[k] == f.name@;
                assert(plan@[k].name@ != plan@[i as int].name@);
            }
            assert(valid_field_name(plan@[i as int].name@));
        }
        let ghost before = builder_names(*b);
        let h = match f.kind {
            FieldKind::Exact => add_exact_field(b, f.name.as_str()),
            FieldKind::Body => add_body_field(b, f.name.as_str(), f.tokenizer.as_str()),
            FieldKind::UnstoredBody => add_unstored_body_field(b, f.name.as_str(), f.tokenizer.as_str()),
            FieldKind::Object => add_object_field(b, f.name.as_str(), f.tokenizer.as_str()),
        };
        out.push(h);
        proof {
            assert(builder_names(*b) =~= Seq::new((i + 1) as nat, |k: int| plan@[k].name@));
        }
        i = i + 1;
    }
    out
}

/// Relies on tantivy's `Schema::get_field`: the handle of the field named `name`, or the
/// library's message when there is none.
#[verifier::external_body]
fn field_named(schema: &Schema, name: &str) -> (r: Result<Field, String>) {
    schema.get_field(name).map_err(|e| e.to_string())
}

/// Relies on tantivy's `Schema::get_field`, `Schema::get_field_entry`,
/// `FieldEntry::field_type`, `TextOptions::get_indexing_options` and
/// `TextFieldIndexing::tokenizer`: the tokenizer name recorded for the field named `name`,
/// `None` when there is no such field or it is not an indexed text field.
#[verifier::external_body]
fn recorded_tokenizer(schema: &Schema, name: &str) -> (r: Option<String>) {
    let field = schema.get_field(name).ok()?;
    match schema.get_field_entry(field).field_type() {
        tantivy::schema::FieldType::Str(options) => {
            options.get_indexing_options().map(|i| i.tokenizer().to_string())
        },
        _ => None,
    }
}

/// The name of the tokenizer that indexes the JSON metadata field: the identity tokenizer.
pub const RAW_TOKENIZER: &'static str = "raw";

fn field_spec(name: &str, kind: FieldKind, tokenizer: &str) -> (r: FieldSpec)
    ensures
        field_view(r) == (name@, kind, tokenizer@),
{
    FieldSpec { name: name.to_owned(), kind, tokenizer: tokenizer.to_owned() }
}

/// The field declarations of a fresh index for `language`, in order.
pub fn schema_plan(language: Language) -> (r: Vec<FieldSpec>)
    ensures
        r@.map_values(|f: FieldSpec| field_view(f)) == spec_schema_plan(language),
        distinct_names(r@),
        forall|i: int| 0 <= i < r@.len() ==> valid_field_name(#[trigger] r@[i].name@),
{
    proof {
        reveal_strlit("id");
        reveal_strlit("source_id");
        reveal_strlit("text");
        reveal_strlit("metadata");
        reveal_strlit("text_ngram");
        reveal_strlit("");
        reveal_strlit("raw");
    }
    let mut v: Vec<FieldSpec> = Vec::new();
    v.push(field_spec("id", FieldKind::Exact, ""));
    v.push(field_spec("source_id", FieldKind::Exact, ""));
    v.push(field_spec("text", FieldKind::Body, language.text_tokenizer_name()));
    v.push(field_spec("metadata", FieldKind::Object, RAW_TOKENIZER));
    match language.ngram_tokenizer_name() {
        Some(n) => v.push(field_spec("text_ngram", FieldKind::UnstoredBody, n)),
        None => {},
    }
    proof {
        let m = v@.map_values(|f: FieldSpec| field_view(f));
        let p = spec_schema_plan(language);
        assert(m.len() == p.len());
        assert forall|i: int| 0 <= i < m.len() implies m[i] == p[i] by {
            assert(m[i] == field_view(v@[i]));
        }
        assert(m =~= p);
        assert(v@[0].name@.len() == 2 && v@[1].name@.len() == 9 && v@[2].name@.len() == 4);
        assert(v@[3].name@.len() == 8);
        assert(v@.len() > 4 ==> v@[4].name@.len() == 10);
        assert(v@[0].name@[0] == 'i' && v@[1].name@[0] == 's' && v@[2].name@[0] == 't' && v@[3].name@[0] == 'm');
        assert(v@.len() > 4 ==> v@[4].name@[0] == 't');
    }
    v
}

/// Builds the schema of a fresh index for `language` from `schema_plan(language)`, and
/// the handles of its fields. `text_ngram` is present exactly when the language has an
/// N-gram tokenizer.
pub fn build_schema(language: Language) -> (r: (Schema, SchemaFields))
    ensures
        r.1.text_ngram is Some <==> language.spec_ngram_tokenizer_name() is Some,
{
    let plan = schema_plan(language);
    proof {
        assert(plan@.map_values(|f: FieldSpec| field_view(f)).len() == plan@.len());
    }
    let mut builder = schema_builder();
    let handles = add_planned_fields(&mut builder, &plan);
    let schema = finish_schema(builder);
    let text_ngram = if handles.len() > 4 {
        Some(handles[4])
    } else {
        None
    };
    (schema, SchemaFields { id: handles[0], source_id: handles[1], text: handles[2], metadata: handles[3], text_ngram })
}

/// Assembles the field handles from the lookups of the five field names: the first four
/// are required, in the order `id`, `source_id`, `text`, `metadata`, and the first that is
/// missing gives its message; a missing `text_ngram` is no error.
pub fn fields_from_lookups(
    id: Result<Field, String>,
    source_id: Result<Field, String>,
    text: Result<Field, String>,
    metadata: Result<Field, String>,
    text_ngram: Result<Field, String>,
) -> (r: Result<SchemaFields, IndexerError>)
    ensures
        match (id, source_id, text, metadata) {
            (Ok(a), Ok(b), Ok(c), Ok(d)) => r == Ok::<SchemaFields, IndexerError>(
                SchemaFields {
                    id: a,
                    source_id: b,
                    text: c,
                    metadata: d,
                    text_ngram: match text_ngram {
                        Ok(f) => Some(f),
                        Err(_) => None,
                    },
                },
            ),
            (Err(e), _, _, _) => r matches Err(IndexerError::Tantivy(m)) && m == e,
            (Ok(_), Err(e), _, _) => r matches Err(IndexerError::Tantivy(m)) && m == e,
            (Ok(_), Ok(_), Err(e), _) => r matches Err(IndexerError::Tantivy(m)) && m == e,
            (Ok(_), Ok(_), Ok(_), Err(e)) => r matches Err(IndexerError::Tantivy(m)) && m == e,
        },
{
    let id = match id {
        Ok(f) => f,
        Err(e) => { return Err(IndexerError::Tantivy(e)); },
    };
    let source_id = match source_id {
        Ok(f) => f,
        Err(e) => { return Err(IndexerError::Tantivy(e)); },
    };
    let text = match text {
        Ok(f) => f,
        Err(e) => { return Err(IndexerError::Tantivy(e)); },
    };
    let metadata = match metadata {
        Ok(f) => f,
        Err(e) => { return Err(IndexerError::Tantivy(e)); },
    };
    let text_ngram = match text_ngram {
        Ok(f) => Some(f),
        Err(_) => None,
    };
    Ok(SchemaFields { id, source_id, text, metadata, text_ngram })
}

impl SchemaFields {
    /// Finds the field handles of an existing schema by name, as `fields_from_lookups`
    /// assembles them.
    pub fn from_schema(schema: &Schema) -> (r: Result<Self, IndexerError>)
        ensures
            r is Ok || r matches Err(IndexerError::Tantivy(_)),
    {
        fields_from_lookups(
            field_named(schema, "id"),
            field_named(schema, "source_id"),
            field_named(schema, "text"),
            field_named(schema, "metadata"),
            field_named(schema, "text_ngram"),
        )
    }
}

/// Decides whether the tokenizer recorded for `text` in an existing index fits `language`:
/// it must be the language's text tokenizer name.
pub fn check_recorded_tokenizer(recorded: Option<String>, language: Language) -> (r: Result<
    (),
    IndexerError,
>)
    ensures
        r is Ok <==> (recorded matches Some(t) && t@ == language.spec_text_tokenizer_name()),
        recorded is None ==> r matches Err(IndexerError::Tantivy(_)),
        (recorded matches Some(t) && t@ != language.spec_text_tokenizer_name()) ==> (r matches Err(
            IndexerError::LanguageSchemaMismatch { expected, actual },
        ) && expected@ == language.spec_text_tokenizer_name() && actual@ == recorded->Some_0@),
{
    let expected = language.text_tokenizer_name();
    match recorded {
        None => Err(IndexerError::Tantivy("text field is not an indexed text field".to_owned())),
        Some(actual) => {
            if crate::tokenizer::same_text(actual.as_str(), expected) {
                Ok(())
            } else {
                Err(IndexerError::LanguageSchemaMismatch { expected: expected.to_owned(), actual })
            }
        },
    }
}

/// Checks that an existing schema's `text` field is bound to `language`'s tokenizer: it
/// succeeds, or reports a field that is missing or not indexed text, or reports the
/// mismatch with the expected name.
pub fn assert_schema_matches_language(schema: &Schema, language: Language) -> (r: Result<
    (),
    IndexerError,
>)
    ensures
        r is Ok || r matches Err(IndexerError::Tantivy(_)) || (r matches Err(
            IndexerError::LanguageSchemaMismatch { expected, actual },
        ) && expected@ == language.spec_text_tokenizer_name() && actual@
            != language.spec_text_tokenizer_name()),
{
    check_recorded_tokenizer(recorded_tokenizer(schema, "text"), language)
}

} // verus!
