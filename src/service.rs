//! The per-language façade: one index and one search engine per supported language.
use vstd::prelude::*;

use crate::config::{contains_language, Language, WakeruConfig};
use crate::errors::{IndexerError, WakeruError};
use crate::indexer::IndexManager;
use crate::models::Document;
use crate::searcher::{SearchEngine, SearchResult};

use tantivy::tokenizer::TextAnalyzer;

verus! {

/// Relies on tantivy's `Clone` for `TextAnalyzer`: a copy that shares the boxed tokenizer.
pub assume_specification[ <TextAnalyzer as Clone>::clone ](a: &TextAnalyzer) -> TextAnalyzer;

/// The languages of a list of per-language entries.
spec fn languages_of(s: Seq<PerLanguage>) -> Seq<Language> {
    Seq::new(s.len(), |i: int| s[i].language)
}

struct PerLanguage {
    language: Language,
    index_manager: IndexManager,
    search_engine: SearchEngine,
}

/// Routes ingest and search requests to the index of their language.
pub struct WakeruService {
    default_language: Language,
    langs: Vec<PerLanguage>,
}

impl WakeruService {
    /// Each per-language entry holds an index and an engine of its own language.
    #[verifier::type_invariant]
    spec fn entries_match(&self) -> bool {
        forall|j: int|
            0 <= j < self.langs@.len() ==> (#[trigger] self.langs@[j]).index_manager.spec_language()
                == self.langs@[j].language && self.langs@[j].search_engine.spec_language()
                == self.langs@[j].language
    }

    /// The languages served, in configuration order.
    pub closed spec fn spec_languages(&self) -> Seq<Language> {
        languages_of(self.langs@)
    }

    pub closed spec fn spec_default_language(&self) -> Language {
        self.default_language
    }

    /// Validates `config`, then opens or creates the index of each supported language
    /// under `{base}/{code}` (those directories must exist) with a search engine over it.
    /// The Japanese analyzer is needed when Japanese is supported.
    pub fn init(config: &WakeruConfig, ja_analyzer: Option<TextAnalyzer>) -> (r: Result<Self, WakeruError>)
        ensures
            config.spec_first_error() matches Some(e) ==> r == Err::<Self, WakeruError>(
                WakeruError::Config(e),
            ),
            config.spec_first_error() is None ==> !(r matches Err(WakeruError::Config(_))),
            config.spec_first_error() is None && config.index.languages@[0] == Language::Ja
                && ja_analyzer is None ==> r matches Err(
                WakeruError::Indexer(IndexerError::MissingJapaneseTokenizer),
            ),
            r matches Ok(s) ==> s.spec_languages() == config.index.languages@
                && s.spec_default_language() == config.index.default_language,
    {
        match config.validate() {
            Ok(()) => {},
            Err(e) => { return Err(WakeruError::Config(e)); },
        }
        let languages = config.supported_languages();
        let mut langs: Vec<PerLanguage> = Vec::new();
        let mut i: usize = 0;
        while i < languages.len()
            invariant
                0 <= i <= languages@.len(),
                languages@ == config.index.languages@,
                config.spec_first_error() is None,
                ja_analyzer is None ==> (i > 0 ==> languages@[0] != Language::Ja),
                forall|j: int|
                    0 <= j < langs@.len() ==> (#[trigger] langs@[j]).index_manager.spec_language()
                        == langs@[j].language && langs@[j].search_engine.spec_language()
                        == langs@[j].language,
                languages_of(langs@) == languages@.subrange(0, i as int),
            decreases languages@.len() - i,
        {
            let lang = languages[i];
            let path = config.index_path_for_language(lang);
            let analyzer = match lang {
                Language::Ja => match &ja_analyzer {
                    Some(a) => Some(a.clone()),
                    None => None,
                },
                Language::En => None,
            };
            let mut index_manager = match IndexManager::open_or_create(path.as_str(), lang, analyzer) {
                Ok(m) => m,
                Err(e) => { return Err(WakeruError::Indexer(e)); },
            };
            index_manager.set_writer_memory_bytes(config.writer_memory_bytes());
            let fields = *index_manager.fields();
            let search_engine = match SearchEngine::new(index_manager.index(), fields, lang) {
                Ok(s) => s,
                Err(e) => { return Err(WakeruError::Searcher(e)); },
            };
            let ghost prev = langs@;
            langs.push(PerLanguage { language: lang, index_manager, search_engine });
            proof {
                assert(lang == languages@[i as int]);
                assert(prev.len() == i) by {
                    assert(languages_of(prev).len() == prev.len());
                }
                assert forall|k: int| 0 <= k < i implies languages_of(langs@)[k] == languages@.subrange(0, i as int + 1)[k] by {
                    assert(langs@[k] == prev[k]);
                    assert(languages_of(prev)[k] == languages@.subrange(0, i as int)[k]);
                }
                assert(languages_of(langs@) =~= languages@.subrange(0, i as int + 1));
            }
            i = i + 1;
        }
        proof {
            assert(languages@.subrange(0, languages@.len() as int) =~= languages@);
        }
        Ok(WakeruService { default_language: config.default_language(), langs })
    }

    fn find(&self, language: Language) -> (r: Option<usize>)
        ensures
            match r {
                Some(i) => i < self.langs@.len() && self.langs@[i as int].language == language,
                None => !self.spec_languages().contains(language),
            },
    {
        let mut i: usize = 0;
        while i < self.langs.len()
            invariant
                0 <= i <= self.langs@.len(),
                forall|j: int| 0 <= j < i ==> (#[trigger] self.langs@[j]).language != language,
            decreases self.langs@.len() - i,
        {
            if self.langs[i].language == language {
                return Some(i);
            }
            i = i + 1;
        }
        proof {
            assert forall|j: int| 0 <= j < self.spec_languages().len() implies self.spec_languages()[j] != language by {
                assert(self.spec_languages()[j] == self.langs@[j].language);
            }
        }
        None
    }

    /// Ingests a batch into the index of `language`.
    pub fn index_documents_with_language(&self, language: Language, documents: &Vec<Document>) -> (r: Result<(), WakeruError>)
        requires
            forall|i: int| 0 <= i < documents@.len() ==> (#[trigger] documents@[i]).metadata.wf(),
        ensures
            !self.spec_languages().contains(language) ==> r == Err::<(), WakeruError>(
                WakeruError::UnsupportedLanguage { language },
            ),
            self.spec_languages().contains(language) ==> (r is Ok || r matches Err(WakeruError::Indexer(_))),
    {
        match self.find(language) {
            None => Err(WakeruError::UnsupportedLanguage { language }),
            Some(i) => match {
                proof {
                    assert(self.spec_languages()[i as int] == language);
                }
                self.langs[i].index_manager.add_documents(documents)
            } {
                Ok(_) => Ok(()),
                Err(e) => Err(WakeruError::Indexer(e)),
            },
        }
    }

    /// Ingests a batch into the index of the default language.
    pub fn index_documents(&self, documents: &Vec<Document>) -> (r: Result<(), WakeruError>)
        requires
            forall|i: int| 0 <= i < documents@.len() ==> (#[trigger] documents@[i]).metadata.wf(),
        ensures
            !self.spec_languages().contains(self.spec_default_language()) ==> r == Err::<(), WakeruError>(
                WakeruError::UnsupportedLanguage { language: self.spec_default_language() },
            ),
            self.spec_languages().contains(self.spec_default_language()) ==> (r is Ok || r matches Err(WakeruError::Indexer(_))),
    {
        self.index_documents_with_language(self.default_language, documents)
    }

    /// Query-syntax search on the index of `language`.
    pub fn search_with_language(&self, language: Language, query: &str, limit: usize) -> (r: Result<Vec<SearchResult>, WakeruError>)
        requires
            limit > 0,
        ensures
            !self.spec_languages().contains(language) ==> r == Err::<Vec<SearchResult>, WakeruError>(
                WakeruError::UnsupportedLanguage { language },
            ),
            self.spec_languages().contains(language) ==> (r is Ok || r matches Err(WakeruError::Searcher(_))),
            r matches Ok(v) ==> v@.len() <= limit,
    {
        match self.find(language) {
            None => Err(WakeruError::UnsupportedLanguage { language }),
            Some(i) => match {
                proof {
                    assert(self.spec_languages()[i as int] == language);
                }
                self.langs[i].search_engine.search(query, limit)
            } {
                Ok(v) => Ok(v),
                Err(e) => Err(WakeruError::Searcher(e)),
            },
        }
    }

    /// Query-syntax search on the index of the default language.
    pub fn search(&self, query: &str, limit: usize) -> (r: Result<Vec<SearchResult>, WakeruError>)
        requires
            limit > 0,
        ensures
            !self.spec_languages().contains(self.spec_default_language()) ==> r == Err::<Vec<SearchResult>, WakeruError>(
                WakeruError::UnsupportedLanguage { language: self.spec_default_language() },
            ),
            self.spec_languages().contains(self.spec_default_language()) ==> (r is Ok || r matches Err(WakeruError::Searcher(_))),
            r matches Ok(v) ==> v@.len() <= limit,
    {
        self.search_with_language(self.default_language, query, limit)
    }

    /// Tokenize-then-OR search on the index of `language`.
    pub fn search_tokens_or_with_language(&self, language: Language, query: &str, limit: usize) -> (r: Result<Vec<SearchResult>, WakeruError>)
        requires
            limit > 0,
        ensures
            !self.spec_languages().contains(language) ==> r == Err::<Vec<SearchResult>, WakeruError>(
                WakeruError::UnsupportedLanguage { language },
            ),
            self.spec_languages().contains(language) ==> (r is Ok || r matches Err(WakeruError::Searcher(_))),
            self.spec_languages().contains(language) && query@.len() == 0 ==> (r matches Ok(v) && v@.len() == 0),
            r matches Ok(v) ==> v@.len() <= limit,
    {
        match self.find(language) {
            None => Err(WakeruError::UnsupportedLanguage { language }),
            Some(i) => {
                proof {
                    assert(self.spec_languages()[i as int] == language);
                }
                match self.langs[i].search_engine.search_tokens_or(query, limit) {
                    Ok(v) => Ok(v),
                    Err(e) => Err(WakeruError::Searcher(e)),
                }
            },
        }
    }

    /// Tokenize-then-OR search on the index of the default language.
    pub fn search_tokens_or(&self, query: &str, limit: usize) -> (r: Result<Vec<SearchResult>, WakeruError>)
        requires
            limit > 0,
        ensures
            !self.spec_languages().contains(self.spec_default_language()) ==> r == Err::<Vec<SearchResult>, WakeruError>(
                WakeruError::UnsupportedLanguage { language: self.spec_default_language() },
            ),
            self.spec_languages().contains(self.spec_default_language()) ==> (r is Ok || r matches Err(WakeruError::Searcher(_))),
            self.spec_languages().contains(self.spec_default_language()) && query@.len() == 0 ==> (r matches Ok(v) && v@.len() == 0),
            r matches Ok(v) ==> v@.len() <= limit,
    {
        self.search_tokens_or_with_language(self.default_language, query, limit)
    }

    pub fn default_language(&self) -> (r: Language)
        ensures
            r == self.spec_default_language(),
    {
        self.default_language
    }

    /// The languages served, in configuration order.
    pub fn supported_languages(&self) -> (r: Vec<Language>)
        ensures
            r@ == self.spec_languages(),
    {
        let mut out: Vec<Language> = Vec::new();
        let mut i: usize = 0;
        while i < self.langs.len()
            invariant
                0 <= i <= self.langs@.len(),
                out@ == self.spec_languages().subrange(0, i as int),
            decreases self.langs@.len() - i,
        {
            out.push(self.langs[i].language);
            proof {
                assert(out@ =~= self.spec_languages().subrange(0, i as int + 1));
            }
            i = i + 1;
        }
        proof {
            assert(self.spec_languages().subrange(0, self.langs@.len() as int) =~= self.spec_languages());
        }
        out
    }

    pub fn is_language_supported(&self, language: Language) -> (r: bool)
        ensures
            r == self.spec_languages().contains(language),
    {
        match self.find(language) {
            Some(i) => {
                proof {
                    assert(self.spec_languages()[i as int] == language);
                }
                true
            },
            None => false,
        }
    }

    pub fn index_manager(&self, language: Language) -> (r: Option<&IndexManager>)
        ensures
            r is Some <==> self.spec_languages().contains(language),
            r matches Some(m) ==> m.spec_language() == language,
    {
        proof {
            use_type_invariant(self);
        }
        match self.find(language) {
            Some(i) => {
                proof {
                    assert(self.spec_languages()[i as int] == language);
                }
                Some(&self.langs[i].index_manager)
            },
            None => None,
        }
    }

    pub fn search_engine(&self, language: Language) -> (r: Option<&SearchEngine>)
        ensures
            r is Some <==> self.spec_languages().contains(language),
    {
        match self.find(language) {
            Some(i) => {
                proof {
                    assert(self.spec_languages()[i as int] == language);
                }
                Some(&self.langs[i].search_engine)
            },
            None => None,
        }
    }
}

} // verus!
