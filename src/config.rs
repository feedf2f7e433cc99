//! Supported languages and the validated engine configuration.
use vstd::prelude::*;
use vstd::utf8::*;

use crate::errors::ConfigError;

verus! {

/// The closed set of languages the engine indexes.
#[derive(Debug, Clone, Copy, PartialEq, Eq, Structural, Hash)]
pub enum Language {
    Ja,
    En,
}

impl Language {
    /// The stable code of the language.
    pub open spec fn spec_code(self) -> Seq<char> {
        match self {
            Language::Ja => seq!['j', 'a'],
            Language::En => seq!['e', 'n'],
        }
    }

    /// The name under which the tokenizer of the `text` field is registered.
    pub open spec fn spec_text_tokenizer_name(self) -> Seq<char> {
        match self {
            Language::Ja => seq!['l', 'a', 'n', 'g', '_', 'j', 'a'],
            Language::En => seq!['l', 'a', 'n', 'g', '_', 'e', 'n'],
        }
    }

    /// The name of the character N-gram tokenizer, present for Japanese only.
    pub open spec fn spec_ngram_tokenizer_name(self) -> Option<Seq<char>> {
        match self {
            Language::Ja => Some(seq!['j', 'a', '_', 'n', 'g', 'r', 'a', 'm']),
            Language::En => None,
        }
    }

    pub fn code(&self) -> (r: &'static str)
        ensures
            r@ == self.spec_code(),
    {
        match self {
            Language::Ja => {
                proof {
                    reveal_strlit("ja");
                }
                "ja"
            },
            Language::En => {
                proof {
                    reveal_strlit("en");
                }
                "en"
            },
        }
    }

    pub fn text_tokenizer_name(&self) -> (r: &'static str)
        ensures
            r@ == self.spec_text_tokenizer_name(),
    {
        match self {
            Language::Ja => {
                proof {
                    reveal_strlit("lang_ja");
                }
                "lang_ja"
            },
            Language::En => {
                proof {
                    reveal_strlit("lang_en");
                }
                "lang_en"
            },
        }
    }

    pub fn ngram_tokenizer_name(&self) -> (r: Option<&'static str>)
        ensures
            match r {
                Some(s) => self.spec_ngram_tokenizer_name() == Some(s@),
                None => self.spec_ngram_tokenizer_name() is None,
            },
    {
        match self {
            Language::Ja => {
                proof {
                    reveal_strlit("ja_ngram");
                }
                Some("ja_ngram")
            },
            Language::En => None,
        }
    }

    /// The text shown for the language: its code.
    pub fn to_string(&self) -> (r: String)
        ensures
            r@ == self.spec_code(),
    {
        self.code().to_owned()
    }
}


/// The named dictionary artifacts that can be downloaded and cached.
#[derive(Debug, Clone, Copy, PartialEq, Eq, Structural)]
pub enum DictionaryPreset {
    Ipadic,
    UnidicCwj,
    UnidicCsj,
}

#[verifier::external_type_specification]
#[verifier::external_body]
pub struct ExPresetDictionaryKind(vibrato_rkyv::dictionary::PresetDictionaryKind);

/// Relies on vibrato_rkyv's `PresetDictionaryKind` variants: the preset of the same name.
#[verifier::external_body]
pub(crate) fn preset_kind(preset: DictionaryPreset) -> (r: vibrato_rkyv::dictionary::PresetDictionaryKind) {
    match preset {
        DictionaryPreset::Ipadic => vibrato_rkyv::dictionary::PresetDictionaryKind::Ipadic,
        DictionaryPreset::UnidicCwj => vibrato_rkyv::dictionary::PresetDictionaryKind::UnidicCwj,
        DictionaryPreset::UnidicCsj => vibrato_rkyv::dictionary::PresetDictionaryKind::UnidicCsj,
    }
}

/// Verbosity of the engine's log output.
#[derive(Debug, Clone, Copy, PartialEq, Eq, Structural)]
pub enum LogLevel {
    Trace,
    Debug,
    Info,
    Warn,
    Error,
}

/// Where the morphological dictionary comes from.
#[derive(Debug, Clone)]
pub struct DictionaryConfig {
    pub preset: DictionaryPreset,
    pub cache_dir: Option<String>,
}

/// Index location and writer parameters.
#[derive(Debug, Clone)]
pub struct IndexConfig {
    pub data_dir: String,
    pub writer_memory_bytes: usize,
    pub batch_commit_size: usize,
    pub languages: Vec<Language>,
    pub default_language: Language,
}

/// Result-count limits of search requests.
#[derive(Debug, Clone)]
pub struct SearchConfig {
    pub default_limit: usize,
    pub max_limit: usize,
}

/// Logging parameters.
#[derive(Debug, Clone)]
pub struct LoggingConfig {
    pub level: LogLevel,
}

/// The whole engine configuration.
#[derive(Debug, Clone)]
pub struct WakeruConfig {
    pub dictionary: DictionaryConfig,
    pub index: IndexConfig,
    pub search: SearchConfig,
    pub logging: LoggingConfig,
}

/// Smallest accepted writer memory budget in bytes.
pub const MIN_WRITER_MEMORY: u64 = 1_000_000;

/// Largest accepted writer memory budget in bytes.
pub const MAX_WRITER_MEMORY: u64 = 1_000_000_000;

/// The languages indexed when none are configured.
pub fn default_languages() -> (r: Vec<Language>)
    ensures
        r@ == seq![Language::Ja],
{
    vec![Language::Ja]
}

/// The language used when none is configured.
pub fn default_language() -> (r: Language)
    ensures
        r == Language::Ja,
{
    Language::Ja
}

/// Joins a relative path component onto a base directory with one separator: none is
/// added when the base is empty or its UTF-8 encoding already ends in `/`.
pub open spec fn spec_join(base: Seq<char>, part: Seq<char>) -> Seq<char> {
    if base.len() == 0 {
        part
    } else if encode_utf8(base).last() == 0x2fu8 {
        base + part
    } else {
        base + seq!['/'] + part
    }
}

fn join_path(base: &String, part: &str) -> (r: String)
    ensures
        r@ == spec_join(base@, part@),
{
    let b: &str = base.as_str();
    if b.is_empty() {
        return part.to_owned();
    }
    let bytes: &[u8] = b.as_bytes();
    proof {
        encode_utf8_valid_utf8(base@);
        assert(encode_utf8(base@).len() > 0) by {
            if encode_utf8(base@).len() == 0 {
                encode_utf8_decode_utf8(base@);
            }
        }
    }
    let last: u8 = bytes[bytes.len() - 1];
    let mut out = base.clone();
    if last != 0x2fu8 {
        proof {
            reveal_strlit("/");
        }
        out.append("/");
    }
    out.append(part);
    out
}

impl WakeruConfig {
    /// The first check that the configuration fails, in the fixed order: language list,
    /// default language, search limits, writer memory, batch commit size.
    pub open spec fn spec_first_error(&self) -> Option<ConfigError> {
        if self.index.languages@.len() == 0 {
            Some(ConfigError::EmptyLanguages)
        } else if !self.index.languages@.contains(self.index.default_language) {
            Some(
                ConfigError::DefaultLanguageNotInLanguages {
                    default_language: self.index.default_language,
                },
            )
        } else if self.search.default_limit < 1 {
            Some(ConfigError::InvalidSearchDefaultLimit { actual: self.search.default_limit })
        } else if self.search.max_limit < self.search.default_limit {
            Some(
                ConfigError::InvalidSearchMaxLimit {
                    default_limit: self.search.default_limit,
                    max_limit: self.search.max_limit,
                },
            )
        } else if self.index.writer_memory_bytes < MIN_WRITER_MEMORY
            || self.index.writer_memory_bytes > MAX_WRITER_MEMORY {
            Some(
                ConfigError::InvalidWriterMemoryBytes {
                    min: MIN_WRITER_MEMORY,
                    max: MAX_WRITER_MEMORY,
                    actual: self.index.writer_memory_bytes as u64,
                },
            )
        } else if self.index.batch_commit_size < 1 {
            Some(ConfigError::InvalidBatchCommitSize { actual: self.index.batch_commit_size })
        } else {
            None
        }
    }

    /// The dictionary preset, as the segmenter's preset kind.
    pub fn dictionary_preset(&self) -> (r: vibrato_rkyv::dictionary::PresetDictionaryKind) {
        preset_kind(self.dictionary.preset)
    }

    pub fn dictionary_cache_dir(&self) -> (r: Option<&String>)
        ensures
            match self.dictionary.cache_dir {
                Some(d) => r == Some(&d),
                None => r is None,
            },
    {
        self.dictionary.cache_dir.as_ref()
    }

    pub fn index_base_dir(&self) -> (r: &String)
        ensures
            r == &self.index.data_dir,
    {
        &self.index.data_dir
    }

    /// The directory of one language's index: `{base}/{code}`.
    pub fn index_path_for_language(&self, language: Language) -> (r: String)
        ensures
            r@ == spec_join(self.index.data_dir@, language.spec_code()),
    {
        join_path(&self.index.data_dir, language.code())
    }

    /// The directory of the single-language layout: `{base}/default`.
    pub fn index_path(&self) -> (r: String)
        ensures
            r@ == spec_join(self.index.data_dir@, seq!['d', 'e', 'f', 'a', 'u', 'l', 't']),
    {
        proof {
            reveal_strlit("default");
        }
        join_path(&self.index.data_dir, "default")
    }

    pub fn writer_memory_bytes(&self) -> (r: usize)
        ensures
            r == self.index.writer_memory_bytes,
    {
        self.index.writer_memory_bytes
    }

    pub fn batch_commit_size(&self) -> (r: usize)
        ensures
            r == self.index.batch_commit_size,
    {
        self.index.batch_commit_size
    }

    pub fn supported_languages(&self) -> (r: &[Language])
        ensures
            r@ == self.index.languages@,
    {
        self.index.languages.as_slice()
    }

    pub fn default_language(&self) -> (r: Language)
        ensures
            r == self.index.default_language,
    {
        self.index.default_language
    }

    pub fn default_search_limit(&self) -> (r: usize)
        ensures
            r == self.search.default_limit,
    {
        self.search.default_limit
    }

    pub fn max_search_limit(&self) -> (r: usize)
        ensures
            r == self.search.max_limit,
    {
        self.search.max_limit
    }

    pub fn log_level(&self) -> (r: LogLevel)
        ensures
            r == self.logging.level,
    {
        self.logging.level
    }

    /// Checks every value of the configuration that needs no file system, and reports the
    /// first failing check in the fixed priority order.
    pub fn validate(&self) -> (r: Result<(), ConfigError>)
        ensures
            r == match self.spec_first_error() {
                Some(e) => Err::<(), ConfigError>(e),
                None => Ok(()),
            },
    {
        if self.index.languages.len() == 0 {
            return Err(ConfigError::EmptyLanguages);
        }
        if !contains_language(&self.index.languages, self.index.default_language) {
            return Err(
                ConfigError::DefaultLanguageNotInLanguages {
                    default_language: self.index.default_language,
                },
            );
        }
        if self.search.default_limit < 1 {
            return Err(ConfigError::InvalidSearchDefaultLimit { actual: self.search.default_limit });
        }
        if self.search.max_limit < self.search.default_limit {
            return Err(
                ConfigError::InvalidSearchMaxLimit {
                    default_limit: self.search.default_limit,
                    max_limit: self.search.max_limit,
                },
            );
        }
        let writer_memory = self.index.writer_memory_bytes as u64;
        if writer_memory < MIN_WRITER_MEMORY || writer_memory > MAX_WRITER_MEMORY {
            return Err(
                ConfigError::InvalidWriterMemoryBytes {
                    min: MIN_WRITER_MEMORY,
                    max: MAX_WRITER_MEMORY,
                    actual: writer_memory,
                },
            );
        }
        if self.index.batch_commit_size < 1 {
            return Err(ConfigError::InvalidBatchCommitSize { actual: self.index.batch_commit_size });
        }
        Ok(())
    }
}

/// What the file system says about a configured dictionary cache directory.
#[derive(Debug, Clone, Copy, PartialEq, Eq, Structural)]
pub enum CacheDirState {
    Missing,
    Directory,
    NotDirectory,
}

/// Decides the last validation step, on the cache directory: `Ok(true)` when it must be
/// created, `Ok(false)` when nothing is to be done, an error when a non-directory is in
/// its place.
pub fn check_cache_dir(path: &String, state: CacheDirState) -> (r: Result<bool, ConfigError>)
    ensures
        state == CacheDirState::Missing <==> r == Ok::<bool, ConfigError>(true),
        state == CacheDirState::Directory <==> r == Ok::<bool, ConfigError>(false),
        state == CacheDirState::NotDirectory <==> (r matches Err(
            ConfigError::InvalidDictionaryCacheDir { path: p },
        ) && p@ == path@),
{
    match state {
        CacheDirState::Missing => Ok(true),
        CacheDirState::Directory => Ok(false),
        CacheDirState::NotDirectory => Err(ConfigError::InvalidDictionaryCacheDir { path: path.clone() }),
    }
}

/// Whether `language` occurs in `languages`.
pub fn contains_language(languages: &Vec<Language>, language: Language) -> (r: bool)
    ensures
        r == languages@.contains(language),
{
    let mut i: usize = 0;
    while i < languages.len()
        invariant
            0 <= i <= languages@.len(),
            forall|j: int| 0 <= j < i ==> languages@[j] != language,
        decreases languages@.len() - i,
    {
        if languages[i] == language {
            return true;
        }
        i = i + 1;
    }
    false
}

} // verus!
