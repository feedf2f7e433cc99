//! BM25 retrieval: query planning over the analyzer's terms, and materialized results.
use vstd::prelude::*;

use crate::config::Language;
use crate::errors::SearcherError;
use crate::indexer::{error_text, reader_searcher};
use crate::models::Metadata;
use crate::schema::SchemaFields;
use crate::stored_json::{
    metadata_from_stored, restored_of, stored_from_owned, StoredValue, MAX_METADATA_DEPTH,
};
use crate::tokenization::{
    single_char_terms, spec_single_char_terms, spec_unique_terms, unique_terms, views,
};

use tantivy::collector::TopDocs;
use tantivy::query::{BooleanQuery, Occur, QueryParser, TermSetQuery};
use tantivy::schema::{Field, OwnedValue, Value};
use tantivy::tokenizer::TextAnalyzer;
use tantivy::{Index, IndexReader, Searcher, TantivyDocument};

verus! {

/// One retrieved document. The BM25 score is kept as the bits of its IEEE-754 single
/// precision value.
#[derive(Debug)]
pub struct SearchResult {
    pub doc_id: String,
    pub source_id: String,
    pub score_bits: u32,
    pub text: String,
    pub metadata: Metadata,
}

/// The terms of one query: every term against the body field, and the one-character
/// terms once more against the N-gram field when the index has one.
pub struct QueryPlan {
    pub text_terms: Vec<String>,
    pub ngram_terms: Vec<String>,
}

/// Plans a tokenize-then-OR query from the analyzer's token texts: the query terms are
/// the non-empty texts, each once in first-occurrence order; where the index has an
/// N-gram field, those of exactly one character also go against it.
pub fn plan_query(tokens: &Vec<String>, has_ngram_field: bool) -> (r: QueryPlan)
    ensures
        views(r.text_terms@) == spec_unique_terms(views(tokens@)),
        views(r.ngram_terms@) == if has_ngram_field {
            spec_single_char_terms(spec_unique_terms(views(tokens@)))
        } else {
            Seq::empty()
        },
{
    let text_terms = unique_terms(tokens);
    let ngram_terms = if has_ngram_field {
        single_char_terms(&text_terms)
    } else {
        let v: Vec<String> = Vec::new();
        assert(views(v@) =~= Seq::<Seq<char>>::empty());
        v
    };
    QueryPlan { text_terms, ngram_terms }
}

/// Relies on tantivy's `Searcher::index`, `Index::tokenizers` and `TokenizerManager::get`:
/// the analyzer registered under `name`, if any.
#[verifier::external_body]
fn registered_analyzer(searcher: &Searcher, name: &str) -> (r: Option<TextAnalyzer>) {
    searcher.index().tokenizers().get(name)
}

/// Relies on tantivy's `TextAnalyzer::token_stream` and `TokenStream::advance`: the texts of
/// the tokens that the analyzer emits for `text`, in order.
#[verifier::external_body]
fn token_texts(analyzer: &mut TextAnalyzer, text: &str) -> (r: Vec<String>) {
    let mut stream = analyzer.token_stream(text);
    let mut out = Vec::new();
    while stream.advance() {
        out.push(stream.token().text.clone());
    }
    out
}

/// The token texts of the English analyzer chain on a text.
pub uninterp spec fn english_analysis(s: Seq<char>) -> Seq<Seq<char>>;

/// Relies on tantivy's `SimpleTokenizer`, `LowerCaser` and English `Stemmer`, chained by
/// `TextAnalyzer::builder`, and on `TextAnalyzer::token_stream`: the texts of the tokens
/// that this chain emits for `text`, which depend on the text alone.
#[verifier::external_body]
fn english_token_texts(text: &str) -> (r: Vec<String>)
    ensures
        views(r@) == english_analysis(text@),
{
    let mut analyzer = TextAnalyzer::builder(tantivy::tokenizer::SimpleTokenizer::default())
        .filter(tantivy::tokenizer::LowerCaser)
        .filter(tantivy::tokenizer::Stemmer::new(tantivy::tokenizer::Language::English))
        .build();
    let mut stream = analyzer.token_stream(text);
    let mut out = Vec::new();
    while stream.advance() {
        out.push(stream.token().text.clone());
    }
    out
}

/// Relies on tantivy's `Searcher::schema`, `Schema::get_field`, `TermSetQuery::new`,
/// `BooleanQuery::new` with one `Occur::Should` clause per set, `Searcher::search` with
/// `TopDocs::with_limit(limit).order_by_score()` and `Searcher::doc`: the hits of the
/// disjunction of each set of terms on the field of that name in the searcher's own
/// schema, at most `limit` of them (the collector keeps the top `limit`), by descending
/// BM25 score, each with its score bits and stored fields.
#[verifier::external_body]
fn search_term_sets(searcher: &Searcher, sets: Vec<(&str, &Vec<String>)>, limit: usize) -> (r: Result<Vec<(u32, TantivyDocument)>, tantivy::TantivyError>)
    requires
        limit > 0,
    ensures
        r matches Ok(hits) ==> hits@.len() <= limit,
{
    let mut clauses: Vec<(Occur, Box<dyn tantivy::query::Query>)> = Vec::new();
    for (name, terms) in sets {
        let f = searcher.schema().get_field(name)?;
        clauses.push((Occur::Should, Box::new(TermSetQuery::new(terms.iter().map(|t| tantivy::Term::from_field_text(f, t))))));
    }
    let hits = searcher.search(&BooleanQuery::new(clauses), &TopDocs::with_limit(limit).order_by_score())?;
    hits.into_iter().map(|(s, a)| Ok((s.to_bits(), searcher.doc(a)?))).collect()
}

/// The outcome of parsing and running a query string.
pub enum ParsedSearch {
    Hits(Vec<(u32, TantivyDocument)>),
    InvalidQuery(String),
    Failed(tantivy::TantivyError),
}

/// Relies on tantivy's `Searcher::schema`, `Schema::get_field`, `QueryParser::for_index`
/// with the field named `field_name` as default field, `QueryParser::parse_query`, `Searcher::search` with
/// `TopDocs::with_limit(limit).order_by_score()` and `Searcher::doc`. The parsed query is a
/// trait object that no signature of the library can carry, so these calls stand together.
#[verifier::external_body]
fn parse_and_search(searcher: &Searcher, field_name: &str, query: &str, limit: usize) -> (r: ParsedSearch)
    requires
        limit > 0,
    ensures
        r matches ParsedSearch::Hits(hits) ==> hits@.len() <= limit,
{
    let q = match searcher.schema().get_field(field_name).map(|f| QueryParser::for_index(searcher.index(), vec![f]).parse_query(query)) {
        Err(e) => return ParsedSearch::Failed(e),
        Ok(Err(e)) => return ParsedSearch::InvalidQuery(e.to_string()),
        Ok(Ok(q)) => q,
    };
    let found = searcher.search(&q, &TopDocs::with_limit(limit).order_by_score());
    match found.and_then(|h| h.into_iter().map(|(s, a)| Ok((s.to_bits(), searcher.doc(a)?))).collect()) {
        Ok(hits) => ParsedSearch::Hits(hits),
        Err(e) => ParsedSearch::Failed(e),
    }
}

/// Relies on tantivy's `Searcher::schema` and `Schema::get_field`: the handle of the field
/// named `name` in the searcher's own schema, if there is one.
#[verifier::external_body]
fn searcher_field(searcher: &Searcher, name: &str) -> (r: Option<Field>) {
    searcher.schema().get_field(name).ok()
}

/// Relies on tantivy's `TantivyDocument::get_first` and `Value::as_str`: the first stored
/// text of `field`, none when the document holds no value of that field.
#[verifier::external_body]
fn first_text(doc: &TantivyDocument, field: Field) -> (r: Option<String>) {
    doc.get_first(field).and_then(|v| v.as_str().map(String::from))
}

/// Relies on tantivy's `TantivyDocument::get_first`, `Value::as_object` and `OwnedValue`'s
/// `From` for stored values: the members of the first stored object of `field`.
#[verifier::external_body]
fn first_object(doc: &TantivyDocument, field: Field) -> (r: Option<Vec<(String, OwnedValue)>>) {
    doc.get_first(field).and_then(|v| v.as_object()).map(
        |it| it.map(|(k, v)| (k.to_string(), OwnedValue::from(v))).collect(),
    )
}

/// Relies on tantivy's `Index::reader_builder` with `ReloadPolicy::OnCommitWithDelay`.
#[verifier::external_body]
fn auto_reloading_reader(index: &Index) -> (r: Result<IndexReader, String>) {
    index.reader_builder().reload_policy(tantivy::ReloadPolicy::OnCommitWithDelay).try_into().map_err(
        |e: tantivy::TantivyError| e.to_string(),
    )
}

/// Reads the members of a stored JSON object into stored form; `None` when one nests
/// deeper than the depth bound.
pub fn members_from_owned(members: Vec<(String, OwnedValue)>) -> (r: Option<Vec<(String, StoredValue)>>)
    ensures
        r matches Some(m) ==> m@.len() == members@.len() && forall|i: int| 0 <= i < m@.len() ==> #[trigger] m@[i].0 == members@[i].0,
{
    let ghost all = members@;
    let mut rest = members;
    let mut out: Vec<(String, StoredValue)> = Vec::new();
    while rest.len() > 0
        invariant
            out@.len() + rest@.len() == all.len(),
            rest@ == all.subrange(out@.len() as int, all.len() as int),
            forall|i: int| 0 <= i < out@.len() ==> #[trigger] out@[i].0 == all[i].0,
        decreases rest@.len(),
    {
        let ghost n = out@.len() as int;
        let (k, v) = rest.remove(0);
        proof {
            assert(k == all[n].0);
        }
        match stored_from_owned(v, MAX_METADATA_DEPTH) {
            Some(s) => out.push((k, s)),
            None => { return None; },
        }
        proof {
            assert(rest@ =~= all.subrange(n + 1, all.len() as int));
        }
    }
    Some(out)
}

/// Whether `md` is the metadata restored from `members`: every member's key is present,
/// and each present value is the restored value of a member with that key.
pub open spec fn metadata_restored(members: Seq<(String, StoredValue)>, md: Metadata) -> bool {
    &&& md.wf()
    &&& forall|i: int| 0 <= i < members.len() ==> (#[trigger] md.spec_get(members[i].0@)) is Some
    &&& forall|k: Seq<char>| (#[trigger] md.spec_get(k)) is Some ==> exists|i: int|
        0 <= i < members.len() && members[i].0@ == k && restored_of(members[i].1, md.spec_get(k)->Some_0)
}

/// Builds one result from the stored fields of a hit. A missing `id` or `source_id` is an
/// invalid index, reported with the field's name; a missing `text` reads as empty, and
/// missing metadata as an empty map.
pub fn materialize(
    id: Option<String>,
    source_id: Option<String>,
    text: Option<String>,
    members: Option<Vec<(String, StoredValue)>>,
    score_bits: u32,
) -> (r: Result<SearchResult, SearcherError>)
    ensures
        id is None ==> (r matches Err(SearcherError::InvalidIndex { field, .. }) && field@ == "id"@),
        id is Some && source_id is None ==> (r matches Err(SearcherError::InvalidIndex { field, .. })
            && field@ == "source_id"@),
        id is Some && source_id is Some ==> (r matches Ok(res) && {
            &&& res.doc_id == id->Some_0
            &&& res.source_id == source_id->Some_0
            &&& res.score_bits == score_bits
            &&& res.text@ == match text {
                Some(t) => t@,
                None => Seq::<char>::empty(),
            }
            &&& match members {
                Some(m) => metadata_restored(m@, res.metadata),
                None => res.metadata.wf() && res.metadata.spec_entries().len() == 0,
            }
        }),
{
    let doc_id = match id {
        Some(t) => t,
        None => {
            return Err(SearcherError::InvalidIndex { field: "id".to_owned(), reason: "Required field not found".to_owned() });
        },
    };
    let source_id = match source_id {
        Some(t) => t,
        None => {
            return Err(SearcherError::InvalidIndex { field: "source_id".to_owned(), reason: "Required field not found".to_owned() });
        },
    };
    let text = match text {
        Some(t) => t,
        None => String::new(),
    };
    let metadata = match members {
        Some(m) => metadata_from_stored(m),
        None => Metadata::new(),
    };
    Ok(SearchResult { doc_id, source_id, score_bits, text, metadata })
}

/// The English query terms are a function of the query text: two calls on the same query
/// give the same ordered term list.
pub proof fn lemma_english_terms_deterministic(q1: Seq<char>, q2: Seq<char>, t1: Seq<Seq<char>>, t2: Seq<Seq<char>>)
    requires
        q1 == q2,
        t1 == spec_unique_terms(english_analysis(q1)),
        t2 == spec_unique_terms(english_analysis(q2)),
    ensures
        t1 == t2,
{
}

/// Executes BM25 queries on one language's index.
pub struct SearchEngine {
    reader: IndexReader,
    fields: SchemaFields,
    language: Language,
}

impl SearchEngine {
    pub closed spec fn spec_language(&self) -> Language {
        self.language
    }

    /// A search engine over `index` with a reader of its own that follows commits.
    pub fn new(index: &Index, fields: SchemaFields, language: Language) -> (r: Result<Self, SearcherError>)
        ensures
            r matches Ok(e) ==> e.spec_language() == language,
    {
        match auto_reloading_reader(index) {
            Ok(reader) => Ok(SearchEngine { reader, fields, language }),
            Err(e) => Err(SearcherError::Tantivy(e)),
        }
    }

    /// Parses `query` with the index's query syntax on the `text` field and returns the
    /// best `limit` hits by BM25: an unparsable query is `InvalidQuery`, a failure of the
    /// search is `Tantivy`, and hits are materialized in order.
    pub fn search(&self, query: &str, limit: usize) -> (r: Result<Vec<SearchResult>, SearcherError>)
        requires
            limit > 0,
        ensures
            r matches Ok(v) ==> v@.len() <= limit,
            r is Ok || r matches Err(SearcherError::InvalidQuery { .. }) || r matches Err(
                SearcherError::Tantivy(_),
            ) || r matches Err(SearcherError::InvalidIndex { .. }) || r matches Err(
                SearcherError::MetadataDeserialize { .. },
            ),
    {
        let searcher = reader_searcher(&self.reader);
        match parse_and_search(&searcher, "text", query, limit) {
            ParsedSearch::Hits(hits) => convert_to_search_results(&searcher, hits),
            ParsedSearch::InvalidQuery(reason) => Err(SearcherError::InvalidQuery { reason }),
            ParsedSearch::Failed(e) => Err(SearcherError::Tantivy(error_text(e))),
        }
    }

    /// Tokenize-then-OR retrieval: `query` is analyzed with the language's analyzer,
    /// reduced to its distinct terms in first-occurrence order (`plan_query`), and searched
    /// as the disjunction of those terms on `text`, together with the one-character terms on
    /// `text_ngram` where the index has that field. An empty query, or one without terms,
    /// gives no results.
    pub fn search_tokens_or(&self, query: &str, limit: usize) -> (r: Result<Vec<SearchResult>, SearcherError>)
        requires
            limit > 0,
        ensures
            query@.len() == 0 ==> (r matches Ok(v) && v@.len() == 0),
            (self.spec_language() == Language::En && spec_unique_terms(english_analysis(query@)).len()
                == 0) ==> (r matches Ok(v) && v@.len() == 0),
            r matches Ok(v) ==> v@.len() <= limit,
    {
        if query.is_empty() {
            return Ok(Vec::new());
        }
        let searcher = reader_searcher(&self.reader);
        let tokens = match self.query_tokens(&searcher, query) {
            Ok(t) => t,
            Err(e) => { return Err(e); },
        };
        self.search_planned(&searcher, &tokens, limit)
    }

    /// The analyzer's token texts for `query`: for English those of the built-in chain,
    /// for Japanese those of the analyzer registered with the index.
    fn query_tokens(&self, searcher: &Searcher, query: &str) -> (r: Result<Vec<String>, SearcherError>)
        ensures
            self.spec_language() == Language::En ==> (r matches Ok(t) && views(t@) == english_analysis(query@)),
    {
        match self.language {
            Language::En => Ok(english_token_texts(query)),
            Language::Ja => {
                let mut analyzer = match registered_analyzer(searcher, self.language.text_tokenizer_name()) {
                    Some(a) => a,
                    None => {
                        return Err(SearcherError::InvalidQuery { reason: "text tokenizer is not registered".to_owned() });
                    },
                };
                Ok(token_texts(&mut analyzer, query))
            },
        }
    }

    /// The query terms of `query`, in the order in which they are searched: the distinct
    /// non-empty token texts of the language's analyzer, first occurrence first. For English
    /// they are determined by the query text alone.
    pub fn tokenize_query(&self, query: &str) -> (r: Result<Vec<String>, SearcherError>)
        ensures
            self.spec_language() == Language::En ==> (r matches Ok(t) && views(t@) == spec_unique_terms(english_analysis(query@))),
    {
        let searcher = reader_searcher(&self.reader);
        match self.query_tokens(&searcher, query) {
            Ok(tokens) => Ok(unique_terms(&tokens)),
            Err(e) => Err(e),
        }
    }

    /// Runs the planned query for the analyzer's token texts `tokens`: the text terms alone
    /// when there are no N-gram terms, else both term sets.
    fn search_planned(&self, searcher: &Searcher, tokens: &Vec<String>, limit: usize) -> (r: Result<Vec<SearchResult>, SearcherError>)
        requires
            limit > 0,
        ensures
            spec_unique_terms(views(tokens@)).len() == 0 ==> (r matches Ok(v) && v@.len() == 0),
            r matches Ok(v) ==> v@.len() <= limit,
    {
        let plan = plan_query(tokens, self.fields.text_ngram.is_some());
        if plan.text_terms.len() == 0 {
            return Ok(Vec::new());
        }
        let mut sets: Vec<(&str, &Vec<String>)> = Vec::new();
        sets.push(("text", &plan.text_terms));
        if plan.ngram_terms.len() > 0 {
            sets.push(("text_ngram", &plan.ngram_terms));
        }
        match search_term_sets(searcher, sets, limit) {
            Ok(hits) => convert_to_search_results(searcher, hits),
            Err(e) => Err(SearcherError::Tantivy(error_text(e))),
        }
    }

    pub fn language(&self) -> (r: Language)
        ensures
            r == self.spec_language(),
    {
        self.language
    }
}

/// Materializes hits in their order with `materialize`, reading each stored field by its
/// name in the searcher's schema (a field the schema lacks reads as missing). A stored
/// object nested deeper than the depth bound is `MetadataDeserialize`.
fn convert_to_search_results(searcher: &Searcher, hits: Vec<(u32, TantivyDocument)>) -> (r: Result<
    Vec<SearchResult>,
    SearcherError,
>)
    ensures
        r matches Ok(v) ==> v@.len() == hits@.len() && forall|i: int| 0 <= i < v@.len() ==> (#[trigger] v@[i]).score_bits == hits@[i].0,
        r is Ok || r matches Err(SearcherError::InvalidIndex { .. }) || r matches Err(
            SearcherError::MetadataDeserialize { .. },
        ),
{
    let id_field = searcher_field(searcher, "id");
    let source_field = searcher_field(searcher, "source_id");
    let text_field = searcher_field(searcher, "text");
    let meta_field = searcher_field(searcher, "metadata");
    let ghost all = hits@;
    let mut rest = hits;
    let mut results: Vec<SearchResult> = Vec::new();
    while rest.len() > 0
        invariant
            results@.len() + rest@.len() == all.len(),
            rest@ == all.subrange(results@.len() as int, all.len() as int),
            forall|k: int| 0 <= k < results@.len() ==> (#[trigger] results@[k]).score_bits == all[k].0,
        decreases rest@.len(),
    {
        let ghost n = results@.len() as int;
        let (score_bits, doc) = rest.remove(0);
        proof {
            assert(score_bits == all[n].0);
        }
        let id = match id_field {
            Some(f) => first_text(&doc, f),
            None => None,
        };
        let source_id = match source_field {
            Some(f) => first_text(&doc, f),
            None => None,
        };
        let text = match text_field {
            Some(f) => first_text(&doc, f),
            None => None,
        };
        let stored = match meta_field {
            Some(f) => first_object(&doc, f),
            None => None,
        };
        let members = match stored {
            Some(m) => match members_from_owned(m) {
                Some(s) => Some(s),
                None => {
                    return Err(SearcherError::MetadataDeserialize { doc_id: match id { Some(t) => t, None => String::new() }, message: "metadata nests too deeply".to_owned() });
                },
            },
            None => None,
        };
        match materialize(id, source_id, text, members, score_bits) {
            Ok(res) => results.push(res),
            Err(e) => { return Err(e); },
        }
        proof {
            assert(rest@ =~= all.subrange(n + 1, all.len() as int));
        }
    }
    Ok(results)
}

} // verus!
