//! Opening or creating an on-disk index and ingesting documents into it.
use vstd::prelude::*;

use crate::config::Language;
use crate::errors::IndexerError;
use crate::ingest::{batch_ids, count_kept, plan_ingest};
use crate::models::Document;
use crate::report::AddDocumentsReport;
use crate::schema::{assert_schema_matches_language, build_schema, SchemaFields};
use crate::stored_json::{metadata_to_members, owned_from_stored, stored_of, StoredValue};

use tantivy::directory::MmapDirectory;
use tantivy::schema::{Field, OwnedValue, Schema};
use tantivy::tokenizer::TextAnalyzer;
use tantivy::{Index, IndexReader, IndexWriter, Searcher, TantivyDocument};

verus! {

#[verifier::external_type_specification]
#[verifier::external_body]
pub struct ExIndex(Index);

#[verifier::external_type_specification]
#[verifier::external_body]
pub struct ExIndexReader(IndexReader);

#[verifier::external_type_specification]
#[verifier::external_body]
pub struct ExSearcher(Searcher);

#[verifier::external_type_specification]
#[verifier::external_body]
pub struct ExTantivyDocument(TantivyDocument);

#[verifier::external_type_specification]
#[verifier::external_body]
pub struct ExTextAnalyzer(TextAnalyzer);

#[verifier::external_type_specification]
#[verifier::external_body]
pub struct ExMmapDirectory(MmapDirectory);

/// Memory budget of the writer of one ingest batch, in bytes, until another is set.
pub const WRITER_MEMORY_BYTES: usize = 50_000_000;

/// Relies on tantivy's `MmapDirectory::open`: the directory at `path`, or the library's
/// message when it does not exist or cannot be opened.
#[verifier::external_body]
fn open_directory(path: &str) -> (r: Result<MmapDirectory, String>) {
    MmapDirectory::open(path).map_err(|e| e.to_string())
}

/// Relies on tantivy's `Index::exists`: whether the directory holds an index's metadata
/// file.
#[verifier::external_body]
fn holds_index(dir: &MmapDirectory) -> (r: Result<bool, String>) {
    Index::exists(dir).map_err(|e| e.to_string())
}

/// Relies on tantivy's `Index::open_in_dir`.
#[verifier::external_body]
fn open_index(path: &str) -> (r: Result<Index, String>) {
    Index::open_in_dir(path).map_err(|e| e.to_string())
}

/// Relies on tantivy's `Index::create_in_dir`.
#[verifier::external_body]
fn create_index(path: &str, schema: Schema) -> (r: Result<Index, String>) {
    Index::create_in_dir(path, schema).map_err(|e| e.to_string())
}

/// Relies on tantivy's `Index::schema`.
#[verifier::external_body]
fn index_schema(index: &Index) -> (r: Schema) {
    index.schema()
}

/// Relies on tantivy's `TokenizerManager::register`, reached by `Index::tokenizers`.
#[verifier::external_body]
fn register_analyzer(index: &Index, name: &str, analyzer: TextAnalyzer) {
    index.tokenizers().register(name, analyzer)
}

/// Relies on tantivy's `NgramTokenizer::new(1, 1, false)` and `TextAnalyzer::builder`: an
/// analyzer that emits every single character.
#[verifier::external_body]
fn unigram_analyzer() -> (r: Result<TextAnalyzer, String>) {
    tantivy::tokenizer::NgramTokenizer::new(1, 1, false).map(|t| TextAnalyzer::builder(t).build()).map_err(
        |e| e.to_string(),
    )
}

/// Relies on tantivy's `SimpleTokenizer`, `LowerCaser` and English `Stemmer`, chained by
/// `TextAnalyzer::builder`.
#[verifier::external_body]
fn english_analyzer() -> (r: TextAnalyzer) {
    TextAnalyzer::builder(tantivy::tokenizer::SimpleTokenizer::default()).filter(
        tantivy::tokenizer::LowerCaser,
    ).filter(tantivy::tokenizer::Stemmer::new(tantivy::tokenizer::Language::English)).build()
}

/// Relies on tantivy's `Index::reader`: a reader reloaded on commit.
#[verifier::external_body]
fn index_reader(index: &Index) -> (r: Result<IndexReader, String>) {
    index.reader().map_err(|e| e.to_string())
}

#[verifier::external_type_specification]
#[verifier::external_body]
pub struct ExTantivyError(tantivy::TantivyError);

/// Relies on the `Display` of tantivy's `TantivyError`: its message.
#[verifier::external_body]
pub(crate) fn error_text(e: tantivy::TantivyError) -> (r: String) {
    e.to_string()
}

/// A writer of one ingest batch. It holds tantivy's `IndexWriter`, whose generic document
/// type no declaration of the library can carry.
#[verifier::external_body]
pub struct BatchWriter {
    writer: IndexWriter,
}

/// Relies on tantivy's `Index::writer`: a writer with the given memory budget.
#[verifier::external_body]
fn open_writer(index: &Index, memory_bytes: usize) -> (r: Result<BatchWriter, tantivy::TantivyError>) {
    index.writer(memory_bytes).map(|writer| BatchWriter { writer })
}

/// Relies on tantivy's `IndexWriter::add_document`: the document is queued for the next
/// commit.
#[verifier::external_body]
fn writer_add(w: &BatchWriter, doc: TantivyDocument) -> (r: Result<(), tantivy::TantivyError>) {
    w.writer.add_document(doc).map(|_| ())
}

/// Relies on tantivy's `IndexWriter::commit`: the queued documents are persisted together.
#[verifier::external_body]
fn writer_commit(w: &mut BatchWriter) -> (r: Result<(), tantivy::TantivyError>) {
    w.writer.commit().map(|_| ())
}

/// Relies on tantivy's `TantivyDocument::default`: a document with no value.
#[verifier::external_body]
fn empty_document() -> (r: TantivyDocument) {
    TantivyDocument::default()
}

/// Relies on tantivy's `TantivyDocument::add_text`.
#[verifier::external_body]
fn put_text(doc: &mut TantivyDocument, field: Field, text: &str) {
    doc.add_text(field, text)
}

/// Relies on tantivy's `TantivyDocument::add_object`, the members gathered into a map.
#[verifier::external_body]
fn put_object(doc: &mut TantivyDocument, field: Field, members: Vec<(String, OwnedValue)>) {
    doc.add_object(field, members.into_iter().collect())
}

/// Relies on tantivy's `IndexReader::searcher`: a snapshot of the committed documents.
#[verifier::external_body]
pub(crate) fn reader_searcher(reader: &IndexReader) -> (r: Searcher) {
    reader.searcher()
}

/// Relies on tantivy's `Searcher::schema`, `Schema::get_field` and `Searcher::doc_freq`: the
/// number of documents holding `text` as a term of the field named `name` in the
/// searcher's own schema, or the library's message when there is no such field.
#[verifier::external_body]
fn doc_freq(searcher: &Searcher, name: &str, text: &str) -> (r: Result<u64, String>) {
    let field = searcher.schema().get_field(name).map_err(|e| e.to_string())?;
    searcher.doc_freq(&tantivy::Term::from_field_text(field, text)).map_err(|e| e.to_string())
}

/// What is written for one document: its id, source id and body, the body once more for
/// the N-gram field when the index has one, and the metadata members in stored form when
/// there are any.
pub struct StoredRecord {
    pub id: String,
    pub source_id: String,
    pub text: String,
    pub ngram: Option<String>,
    pub members: Option<Vec<(String, StoredValue)>>,
}

/// Whether `r` is the record written for `d`.
pub open spec fn record_of_doc(d: Document, has_ngram: bool, r: StoredRecord) -> bool {
    &&& r.id == d.id && r.source_id == d.source_id && r.text == d.text
    &&& r.ngram == if has_ngram { Some(d.text) } else { None }
    &&& if d.metadata.spec_entries().len() == 0 {
        r.members is None
    } else {
        r.members matches Some(m) && m@.len() == d.metadata.spec_entries().len() && forall|i: int|
            0 <= i < m@.len() ==> #[trigger] m@[i].0 == d.metadata.spec_entries()[i].0 && stored_of(
                d.metadata.spec_entries()[i].1,
                m@[i].1,
            )
    }
}

/// A record with its metadata members in the index's own value type.
pub struct WriteRecord {
    pub id: String,
    pub source_id: String,
    pub text: String,
    pub ngram: Option<String>,
    pub members: Option<Vec<(String, tantivy::schema::OwnedValue)>>,
}

/// Turns a record's stored members into the index's values; everything else is kept.
pub fn write_record(r: StoredRecord) -> (w: WriteRecord)
    ensures
        w.id == r.id && w.source_id == r.source_id && w.text == r.text && w.ngram == r.ngram,
        w.members is Some <==> r.members is Some,
        r.members matches Some(m) ==> w.members->Some_0@.len() == m@.len() && forall|i: int|
            0 <= i < m@.len() ==> #[trigger] w.members->Some_0@[i].0 == m@[i].0,
{
    let members = match r.members {
        None => None,
        Some(m) => {
            let ghost all = m@;
            let mut rest = m;
            let mut out: Vec<(String, tantivy::schema::OwnedValue)> = Vec::new();
            while rest.len() > 0
                invariant
                    out@.len() + rest@.len() == all.len(),
                    rest@ == all.subrange(out@.len() as int, all.len() as int),
                    forall|i: int| 0 <= i < out@.len() ==> #[trigger] out@[i].0 == all[i].0,
                decreases rest@.len(),
            {
                let ghost n = out@.len() as int;
                let (k, v) = rest.remove(0);
                proof {
                    assert(k == all[n].0);
                }
                out.push((k, owned_from_stored(v)));
                proof {
                    assert(rest@ =~= all.subrange(n + 1, all.len() as int));
                }
            }
            Some(out)
        },
    };
    WriteRecord { id: r.id, source_id: r.source_id, text: r.text, ngram: r.ngram, members }
}

/// The documents of a batch that are written, in batch order.
pub open spec fn kept_docs(docs: Seq<Document>, keep: Seq<bool>) -> Seq<Document>
    decreases docs.len(),
{
    if docs.len() == 0 {
        Seq::empty()
    } else {
        let prev = kept_docs(docs.drop_last(), keep.subrange(0, docs.len() - 1));
        if keep[docs.len() - 1] {
            prev.push(docs.last())
        } else {
            prev
        }
    }
}

/// The record written for one document.
pub fn record_of(doc: &Document, has_ngram: bool) -> (r: StoredRecord)
    ensures
        record_of_doc(*doc, has_ngram, r),
{
    let ngram = if has_ngram {
        Some(doc.text.clone())
    } else {
        None
    };
    let members = if doc.metadata.is_empty() {
        None
    } else {
        Some(metadata_to_members(&doc.metadata))
    };
    StoredRecord { id: doc.id.clone(), source_id: doc.source_id.clone(), text: doc.text.clone(), ngram, members }
}

/// The records of the kept documents of a batch, in batch order.
pub fn ingest_records(docs: &Vec<Document>, keep: &Vec<bool>, has_ngram: bool) -> (r: Vec<StoredRecord>)
    requires
        keep@.len() == docs@.len(),
    ensures
        r@.len() == kept_docs(docs@, keep@).len(),
        forall|j: int| 0 <= j < r@.len() ==> #[trigger] record_of_doc(kept_docs(docs@, keep@)[j], has_ngram, r@[j]),
{
    let mut out: Vec<StoredRecord> = Vec::new();
    let mut i: usize = 0;
    while i < docs.len()
        invariant
            0 <= i <= docs@.len(),
            keep@.len() == docs@.len(),
            out@.len() == kept_docs(docs@.subrange(0, i as int), keep@.subrange(0, i as int)).len(),
            forall|j: int| 0 <= j < out@.len() ==> #[trigger] record_of_doc(
                kept_docs(docs@.subrange(0, i as int), keep@.subrange(0, i as int))[j],
                has_ngram,
                out@[j],
            ),
        decreases docs@.len() - i,
    {
        let ghost d0 = docs@.subrange(0, i as int);
        let ghost k0 = keep@.subrange(0, i as int);
        let ghost d1 = docs@.subrange(0, i as int + 1);
        let ghost k1 = keep@.subrange(0, i as int + 1);
        assert(d1.drop_last() =~= d0);
        assert(k1.subrange(0, d1.len() - 1) =~= k0);
        assert(d1.last() == docs@[i as int]);
        if keep[i] {
            out.push(record_of(&docs[i], has_ngram));
        }
        i = i + 1;
    }
    assert(docs@.subrange(0, docs@.len() as int) =~= docs@);
    assert(keep@.subrange(0, keep@.len() as int) =~= keep@);
    out
}

/// Relies on tantivy's `IndexReader::reload`.
#[verifier::external_body]
fn reader_reload(reader: &IndexReader) -> (r: Result<(), String>) {
    reader.reload().map_err(|e| e.to_string())
}

/// One on-disk index of one language: its reader, its field handles and its registered
/// tokenizers.
pub struct IndexManager {
    index: Index,
    reader: IndexReader,
    fields: SchemaFields,
    language: Language,
    writer_memory_bytes: usize,
}

impl IndexManager {
    pub closed spec fn spec_language(&self) -> Language {
        self.language
    }

    /// The memory budget of the writer of each ingest batch, in bytes.
    pub closed spec fn spec_writer_memory_bytes(&self) -> usize {
        self.writer_memory_bytes
    }

    /// Sets the memory budget of the writer of each later ingest batch.
    pub fn set_writer_memory_bytes(&mut self, bytes: usize)
        ensures
            final(self).spec_writer_memory_bytes() == bytes,
            final(self).spec_language() == old(self).spec_language(),
            final(self).spec_fields() == old(self).spec_fields(),
    {
        self.writer_memory_bytes = bytes;
    }

    pub closed spec fn spec_fields(&self) -> SchemaFields {
        self.fields
    }

    /// Opens the index in the directory `index_path` when that directory holds one, and
    /// creates one there otherwise; the directory itself must exist. A Japanese index needs
    /// the morphological analyzer, and fails without it before anything is touched. An
    /// opened index must record the language's tokenizer for `text`. The analyzers are
    /// registered under the language's tokenizer names: for Japanese the given analyzer and
    /// a one-character N-gram analyzer, for English a built-in chain of simple
    /// tokenization, lower-casing and stemming.
    pub fn open_or_create(index_path: &str, language: Language, tokenizer_ja: Option<TextAnalyzer>) -> (r: Result<
        Self,
        IndexerError,
    >)
        ensures
            (language == Language::Ja && tokenizer_ja is None) <==> r matches Err(
                IndexerError::MissingJapaneseTokenizer,
            ),
            r matches Err(IndexerError::LanguageSchemaMismatch { expected, .. }) ==> expected@
                == language.spec_text_tokenizer_name(),
            r matches Ok(m) ==> m.spec_language() == language,
    {
        let ja_analyzer = match language {
            Language::Ja => match tokenizer_ja {
                Some(a) => Some(a),
                None => { return Err(IndexerError::MissingJapaneseTokenizer); },
            },
            Language::En => None,
        };
        let exists = match open_directory(index_path) {
            Ok(dir) => match holds_index(&dir) {
                Ok(b) => b,
                Err(e) => { return Err(IndexerError::Tantivy(e)); },
            },
            Err(e) => {
                return Err(IndexerError::InvalidIndexPath { path: index_path.to_owned(), message: e });
            },
        };
        let (index, fields) = if exists {
            let index = match open_index(index_path) {
                Ok(i) => i,
                Err(e) => { return Err(IndexerError::Tantivy(e)); },
            };
            let schema = index_schema(&index);
            let fields = match SchemaFields::from_schema(&schema) {
                Ok(f) => f,
                Err(e) => { return Err(e); },
            };
            match assert_schema_matches_language(&schema, language) {
                Ok(()) => {},
                Err(e) => { return Err(e); },
            }
            (index, fields)
        } else {
            let (schema, fields) = build_schema(language);
            let index = match create_index(index_path, schema) {
                Ok(i) => i,
                Err(e) => { return Err(IndexerError::Tantivy(e)); },
            };
            (index, fields)
        };
        match ja_analyzer {
            Some(analyzer) => {
                register_analyzer(&index, language.text_tokenizer_name(), analyzer);
                let ngram = match unigram_analyzer() {
                    Ok(a) => a,
                    Err(e) => { return Err(IndexerError::Tantivy(e)); },
                };
                match language.ngram_tokenizer_name() {
                    Some(name) => register_analyzer(&index, name, ngram),
                    None => {},
                }
            },
            None => {
                register_analyzer(&index, language.text_tokenizer_name(), english_analyzer());
            },
        }
        let reader = match index_reader(&index) {
            Ok(r) => r,
            Err(e) => { return Err(IndexerError::Tantivy(e)); },
        };
        Ok(IndexManager { index, reader, fields, language, writer_memory_bytes: WRITER_MEMORY_BYTES })
    }

    /// Ingests a batch. A document is skipped when an earlier document of the batch has
    /// the same id or the index already holds its id at the start of the call; the others
    /// are written, as `ingest_records` builds them from `plan_ingest`'s decisions, and
    /// committed together, and the reader is reloaded. On success every document is counted
    /// once, as added or skipped, and the number added is the number of first occurrences
    /// of ids that the index did not hold.
    pub fn add_documents(&self, documents: &Vec<Document>) -> (r: Result<AddDocumentsReport, IndexerError>)
        ensures
            r matches Ok(rep) ==> {
                &&& rep.total == documents@.len()
                &&& rep.added + rep.skipped_duplicates == rep.total
                &&& exists|in_index: Seq<bool>|
                    in_index.len() == documents@.len() && rep.added == count_kept(
                        batch_ids(documents@),
                        in_index,
                        documents@.len() as int,
                    )
            },
    {
        let searcher = reader_searcher(&self.reader);
        let mut in_index: Vec<bool> = Vec::new();
        let mut i: usize = 0;
        while i < documents.len()
            invariant
                0 <= i <= documents@.len(),
                in_index@.len() == i,
            decreases documents@.len() - i,
        {
            let n = match doc_freq(&searcher, "id", documents[i].id.as_str()) {
                Ok(n) => n,
                Err(e) => { return Err(IndexerError::Tantivy(e)); },
            };
            in_index.push(n > 0);
            i = i + 1;
        }
        let plan = plan_ingest(documents, &in_index);
        let records = ingest_records(documents, &plan.keep, self.fields.text_ngram.is_some());
        match self.write_batch(records) {
            Ok(()) => {},
            Err(e) => { return Err(IndexerError::Tantivy(error_text(e))); },
        }
        match reader_reload(&self.reader) {
            Ok(()) => {},
            Err(e) => { return Err(IndexerError::Tantivy(e)); },
        }
        Ok(plan.report)
    }

    /// The index document of a record: id, source id and body into their fields, the
    /// N-gram copy into `text_ngram` when the record has one and the index has that field,
    /// and the metadata members as one JSON object when there are any.
    fn document_of(&self, w: WriteRecord) -> (r: TantivyDocument) {
        let mut doc = empty_document();
        put_text(&mut doc, self.fields.id, w.id.as_str());
        put_text(&mut doc, self.fields.source_id, w.source_id.as_str());
        put_text(&mut doc, self.fields.text, w.text.as_str());
        match (w.ngram, self.fields.text_ngram) {
            (Some(t), Some(f)) => put_text(&mut doc, f, t.as_str()),
            _ => {},
        }
        match w.members {
            Some(m) => put_object(&mut doc, self.fields.metadata, m),
            None => {},
        }
        doc
    }

    /// Writes the records in order with one writer and commits them together.
    fn write_batch(&self, records: Vec<StoredRecord>) -> (r: Result<(), tantivy::TantivyError>) {
        let mut writer = match open_writer(&self.index, self.writer_memory_bytes) {
            Ok(w) => w,
            Err(e) => { return Err(e); },
        };
        let mut rest = records;
        while rest.len() > 0
            decreases rest@.len(),
        {
            let doc = self.document_of(write_record(rest.remove(0)));
            match writer_add(&writer, doc) {
                Ok(()) => {},
                Err(e) => { return Err(e); },
            }
        }
        writer_commit(&mut writer)
    }

    pub fn index(&self) -> (r: &Index) {
        &self.index
    }

    pub fn reader(&self) -> (r: &IndexReader) {
        &self.reader
    }

    pub fn fields(&self) -> (r: &SchemaFields)
        ensures
            *r == self.spec_fields(),
    {
        &self.fields
    }

    pub fn language(&self) -> (r: Language)
        ensures
            r == self.spec_language(),
    {
        self.language
    }
}

} // verus!
