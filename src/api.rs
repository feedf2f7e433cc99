//! Value types of the morphological-analysis endpoint: errors, token descriptions and
//! the dictionary preset setting.
use vstd::prelude::*;

use crate::config::{preset_kind, DictionaryPreset};
use crate::errors::{TokenizerError, WakeruError};
use crate::tokenization::views;
use crate::tokenizer::{same_text, should_index, spec_should_index};

verus! {

/// Largest accepted request text, in bytes.
pub const MAX_TEXT_LENGTH: usize = 10_000_000;

/// Default bind address of the server.
pub const DEFAULT_BIND_ADDR: &'static str = "127.0.0.1:5530";

/// Default dictionary preset of the server.
pub const DEFAULT_PRESET_DICT: &'static str = "unidic-cwj";

/// The user-facing classes of endpoint errors.
#[derive(Debug, Clone, Copy, PartialEq, Eq, Structural)]
pub enum ApiErrorKind {
    InvalidInput,
    TextTooLong,
    Internal,
    Config,
}

impl ApiErrorKind {
    pub open spec fn spec_code(self) -> Seq<char> {
        match self {
            ApiErrorKind::InvalidInput => "invalid_input"@,
            ApiErrorKind::TextTooLong => "text_too_long"@,
            ApiErrorKind::Internal => "internal_error"@,
            ApiErrorKind::Config => "config_error"@,
        }
    }

    pub open spec fn spec_status(self) -> u16 {
        match self {
            ApiErrorKind::InvalidInput | ApiErrorKind::TextTooLong => 400,
            ApiErrorKind::Internal | ApiErrorKind::Config => 500,
        }
    }

    /// The machine-readable error code.
    pub fn code(&self) -> (r: &'static str)
        ensures
            r@ == self.spec_code(),
    {
        match self {
            ApiErrorKind::InvalidInput => "invalid_input",
            ApiErrorKind::TextTooLong => "text_too_long",
            ApiErrorKind::Internal => "internal_error",
            ApiErrorKind::Config => "config_error",
        }
    }

    /// The HTTP status code: 400 for client errors, 500 for server errors.
    pub fn status(&self) -> (r: u16)
        ensures
            r == self.spec_status(),
    {
        match self {
            ApiErrorKind::InvalidInput | ApiErrorKind::TextTooLong => 400,
            ApiErrorKind::Internal | ApiErrorKind::Config => 500,
        }
    }
}

/// An error of the endpoint, with its message or sizes.
#[derive(Debug)]
pub enum ApiError {
    InvalidInput(String),
    TextTooLong(usize, usize),
    Internal(String),
    Config(String),
}

impl ApiError {
    pub open spec fn spec_kind(&self) -> ApiErrorKind {
        match self {
            ApiError::InvalidInput(_) => ApiErrorKind::InvalidInput,
            ApiError::TextTooLong(_, _) => ApiErrorKind::TextTooLong,
            ApiError::Internal(_) => ApiErrorKind::Internal,
            ApiError::Config(_) => ApiErrorKind::Config,
        }
    }

    pub fn kind(&self) -> (r: ApiErrorKind)
        ensures
            r == self.spec_kind(),
    {
        match self {
            ApiError::InvalidInput(_) => ApiErrorKind::InvalidInput,
            ApiError::TextTooLong(_, _) => ApiErrorKind::TextTooLong,
            ApiError::Internal(_) => ApiErrorKind::Internal,
            ApiError::Config(_) => ApiErrorKind::Config,
        }
    }

    pub fn code(&self) -> (r: &'static str)
        ensures
            r@ == self.spec_kind().spec_code(),
    {
        self.kind().code()
    }

    pub fn status(&self) -> (r: u16)
        ensures
            r == self.spec_kind().spec_status(),
    {
        self.kind().status()
    }

    pub fn invalid_input(message: &str) -> (r: Self)
        ensures
            r matches ApiError::InvalidInput(m) && m@ == message@,
    {
        ApiError::InvalidInput(message.to_owned())
    }

    pub fn text_too_long(actual: usize, max: usize) -> (r: Self)
        ensures
            r == ApiError::TextTooLong(actual, max),
    {
        ApiError::TextTooLong(actual, max)
    }

    pub fn internal(message: &str) -> (r: Self)
        ensures
            r matches ApiError::Internal(m) && m@ == message@,
    {
        ApiError::Internal(message.to_owned())
    }

    pub fn config(message: &str) -> (r: Self)
        ensures
            r matches ApiError::Config(m) && m@ == message@,
    {
        ApiError::Config(message.to_owned())
    }

    /// Classifies an engine error for the endpoint: invalid tokenizer input is the
    /// client's fault; dictionary, language and configuration errors are configuration
    /// errors; index and search failures are internal errors.
    pub fn from(err: WakeruError) -> (r: Self)
        ensures
            r.spec_kind() == match err {
                WakeruError::Tokenizer(TokenizerError::InvalidInput { .. }) => ApiErrorKind::InvalidInput,
                WakeruError::Dictionary(_) | WakeruError::Tokenizer(TokenizerError::Dictionary(_))
                | WakeruError::UnsupportedLanguage { .. } | WakeruError::Config(_) => ApiErrorKind::Config,
                WakeruError::Indexer(_) | WakeruError::Searcher(_) => ApiErrorKind::Internal,
            },
            err matches WakeruError::Tokenizer(TokenizerError::InvalidInput { reason }) ==> (r matches ApiError::InvalidInput(m) && m@ == reason@),
    {
        match err {
            WakeruError::Tokenizer(TokenizerError::InvalidInput { reason }) => ApiError::InvalidInput(reason),
            WakeruError::Dictionary(_) | WakeruError::Tokenizer(TokenizerError::Dictionary(_)) => {
                ApiError::Config("dictionary error".to_owned())
            },
            WakeruError::UnsupportedLanguage { language } => {
                let mut m = "unsupported language: ".to_owned();
                m.append(language.code());
                ApiError::Config(m)
            },
            WakeruError::Config(_) => ApiError::Config("configuration error".to_owned()),
            WakeruError::Indexer(_) => ApiError::Internal("internal error: indexer".to_owned()),
            WakeruError::Searcher(_) => ApiError::Internal("internal error: searcher".to_owned()),
        }
    }
}

/// The request body of the analysis endpoint.
#[derive(Debug)]
pub struct WakeruRequest {
    pub text: String,
}

/// One analyzed morpheme as the endpoint reports it.
#[derive(Debug, Clone)]
pub struct TokenDto {
    pub surface: String,
    pub feature: String,
    pub pos: String,
    pub pos_detail1: String,
    pub pos_detail2: String,
    pub pos_detail3: String,
    pub lemma: Option<String>,
    pub reading: Option<String>,
    pub pronunciation: Option<String>,
    pub start_byte: usize,
    pub end_byte: usize,
    pub should_index: bool,
}

/// The response body of the analysis endpoint.
#[derive(Debug)]
pub struct WakeruResponse {
    pub tokens: Vec<TokenDto>,
    pub elapsed_ms: u64,
}

/// The position of the first comma in `s`, or its length when there is none.
pub open spec fn first_comma(s: Seq<char>) -> int
    decreases s.len(),
{
    if s.len() == 0 {
        0
    } else if s[0] == ',' {
        0
    } else {
        1 + first_comma(s.drop_first())
    }
}

/// `s` split on commas into at most `limit` fields, the last holding the rest.
pub open spec fn split_fields(s: Seq<char>, limit: nat) -> Seq<Seq<char>>
    decreases limit,
{
    let p = first_comma(s);
    if limit <= 1 || p >= s.len() {
        seq![s]
    } else {
        seq![s.subrange(0, p)] + split_fields(s.subrange(p + 1, s.len() as int), (limit - 1) as nat)
    }
}

/// The feature field at `idx`, empty when the feature has fewer fields.
pub open spec fn field_or_empty(parts: Seq<Seq<char>>, idx: int) -> Seq<char> {
    if idx < parts.len() {
        parts[idx]
    } else {
        Seq::empty()
    }
}

/// The feature field at `idx` when it is present, non-empty and not `*`.
pub open spec fn field_if_given(parts: Seq<Seq<char>>, idx: int) -> Option<Seq<char>> {
    if idx < parts.len() && parts[idx].len() > 0 && parts[idx] != seq!['*'] {
        Some(parts[idx])
    } else {
        None
    }
}

/// The view of an optional string.
pub open spec fn opt_view(o: Option<String>) -> Option<Seq<char>> {
    match o {
        Some(s) => Some(s@),
        None => None,
    }
}

/// Relies on `str::splitn` with a comma: at most `limit` substrings separated by commas,
/// the last holding the remainder.
#[verifier::external_body]
fn split_on_commas(s: &str, limit: usize) -> (r: Vec<String>)
    requires
        limit > 0,
    ensures
        views(r@) == split_fields(s@, limit as nat),
{
    s.splitn(limit, ',').map(String::from).collect()
}

/// How many comma-separated fields of a feature string are read.
pub const FEATURE_FIELDS: usize = 13;

fn field_at(parts: &Vec<String>, idx: usize) -> (r: String)
    ensures
        r@ == field_or_empty(views(parts@), idx as int),
{
    if idx < parts.len() {
        assert(views(parts@)[idx as int] == parts@[idx as int]@);
        parts[idx].clone()
    } else {
        String::new()
    }
}

fn given_field_at(parts: &Vec<String>, idx: usize) -> (r: Option<String>)
    ensures
        opt_view(r) == field_if_given(views(parts@), idx as int),
{
    if idx < parts.len() {
        let p = &parts[idx];
        proof {
            reveal_strlit("*");
            assert(views(parts@)[idx as int] == p@);
            assert("*"@ =~= seq!['*']);
        }
        if p.as_str().is_empty() || same_text(p.as_str(), "*") {
            None
        } else {
            Some(p.clone())
        }
    } else {
        None
    }
}

/// Whether `d` describes a morpheme with this surface, feature, byte range and indexing
/// decision, as `TokenDto::from_feature` builds it.
pub open spec fn describes(d: TokenDto, surface: Seq<char>, feature: Seq<char>, start: usize, end: usize, keep: bool) -> bool {
    &&& d.surface@ == surface
    &&& d.feature@ == feature
    &&& d.pos@ == field_or_empty(split_fields(feature, 13), 0)
    &&& d.pos_detail1@ == field_or_empty(split_fields(feature, 13), 1)
    &&& d.pos_detail2@ == field_or_empty(split_fields(feature, 13), 2)
    &&& d.pos_detail3@ == field_or_empty(split_fields(feature, 13), 3)
    &&& opt_view(d.lemma) == field_if_given(split_fields(feature, 13), 6)
    &&& opt_view(d.reading) == field_if_given(split_fields(feature, 13), 7)
    &&& opt_view(d.pronunciation) == field_if_given(split_fields(feature, 13), 8)
    &&& d.start_byte == start
    &&& d.end_byte == end
    &&& d.should_index == keep
}

impl TokenDto {
    /// Describes one morpheme: its surface, its feature string and the feature's fields
    /// (part of speech at 0, its details at 1 to 3; lemma, reading and pronunciation at 6
    /// to 8, each left out when empty or `*`), its byte range, and the indexing decision.
    pub fn from_feature(surface: &str, feature: &str, start_byte: usize, end_byte: usize, should_index: bool) -> (r: Self)
        ensures
            r.surface@ == surface@,
            r.feature@ == feature@,
            r.pos@ == field_or_empty(split_fields(feature@, 13), 0),
            r.pos_detail1@ == field_or_empty(split_fields(feature@, 13), 1),
            r.pos_detail2@ == field_or_empty(split_fields(feature@, 13), 2),
            r.pos_detail3@ == field_or_empty(split_fields(feature@, 13), 3),
            opt_view(r.lemma) == field_if_given(split_fields(feature@, 13), 6),
            opt_view(r.reading) == field_if_given(split_fields(feature@, 13), 7),
            opt_view(r.pronunciation) == field_if_given(split_fields(feature@, 13), 8),
            r.start_byte == start_byte,
            r.end_byte == end_byte,
            r.should_index == should_index,
            describes(r, surface@, feature@, start_byte, end_byte, should_index),
    {
        let parts = split_on_commas(feature, FEATURE_FIELDS);
        TokenDto {
            surface: surface.to_owned(),
            feature: feature.to_owned(),
            pos: field_at(&parts, 0),
            pos_detail1: field_at(&parts, 1),
            pos_detail2: field_at(&parts, 2),
            pos_detail3: field_at(&parts, 3),
            lemma: given_field_at(&parts, 6),
            reading: given_field_at(&parts, 7),
            pronunciation: given_field_at(&parts, 8),
            start_byte,
            end_byte,
            should_index,
        }
    }

    /// Describes a morpheme with the content-word decision taken on its feature.
    pub fn from_morpheme(surface: &str, feature: &str, start_byte: usize, end_byte: usize) -> (r: Self)
        ensures
            r.surface@ == surface@,
            r.feature@ == feature@,
            r.start_byte == start_byte,
            r.end_byte == end_byte,
            r.should_index == spec_should_index(feature@),
            describes(r, surface@, feature@, start_byte, end_byte, spec_should_index(feature@)),
    {
        let keep = should_index(feature);
        TokenDto::from_feature(surface, feature, start_byte, end_byte, keep)
    }
}


/// The dictionary presets the server can load.
#[derive(Debug, Clone, Copy, PartialEq, Eq, Structural)]
pub enum Preset {
    Ipadic,
    UnidicCwj,
    UnidicCsj,
}

/// The lower-case form of a string, as `str::to_lowercase` computes it.
pub uninterp spec fn lower_of(s: Seq<char>) -> Seq<char>;

/// Relies on `str::to_lowercase`: the result depends on the characters alone.
#[verifier::external_body]
fn lowercase(s: &str) -> (r: String)
    ensures
        r@ == lower_of(s@),
{
    s.to_lowercase()
}

/// The preset named by an already lower-cased name.
pub open spec fn spec_preset_named(lower: Seq<char>) -> Option<Preset> {
    if lower == "ipadic"@ {
        Some(Preset::Ipadic)
    } else if lower == "unidic-cwj"@ {
        Some(Preset::UnidicCwj)
    } else if lower == "unidic-csj"@ {
        Some(Preset::UnidicCsj)
    } else {
        None
    }
}

/// Reads a lower-cased preset name.
pub fn preset_named(lower: &str) -> (r: Option<Preset>)
    ensures
        r == spec_preset_named(lower@),
{
    if same_text(lower, "ipadic") {
        Some(Preset::Ipadic)
    } else if same_text(lower, "unidic-cwj") {
        Some(Preset::UnidicCwj)
    } else if same_text(lower, "unidic-csj") {
        Some(Preset::UnidicCsj)
    } else {
        None
    }
}

impl Preset {
    /// Reads a preset name, ignoring case; an unknown name is reported with the valid ones.
    pub fn parse(s: &str) -> (r: Result<Preset, String>)
        ensures
            match spec_preset_named(lower_of(s@)) {
                Some(p) => r == Ok::<Preset, String>(p),
                None => r is Err,
            },
    {
        let lower = lowercase(s);
        match preset_named(lower.as_str()) {
            Some(p) => Ok(p),
            None => {
                let mut m = "Unknown preset: ".to_owned();
                m.append(s);
                m.append(". Valid values: ipadic, unidic-cwj, unidic-csj");
                Err(m)
            },
        }
    }
}

impl std::str::FromStr for Preset {
    type Err = String;

    fn from_str(s: &str) -> Result<Preset, String> {
        Preset::parse(s)
    }
}

/// The dictionary preset of the same name.
pub fn preset_dictionary(preset: Preset) -> (r: DictionaryPreset)
    ensures
        r == match preset {
            Preset::Ipadic => DictionaryPreset::Ipadic,
            Preset::UnidicCwj => DictionaryPreset::UnidicCwj,
            Preset::UnidicCsj => DictionaryPreset::UnidicCsj,
        },
{
    match preset {
        Preset::Ipadic => DictionaryPreset::Ipadic,
        Preset::UnidicCwj => DictionaryPreset::UnidicCwj,
        Preset::UnidicCsj => DictionaryPreset::UnidicCsj,
    }
}

/// The segmenter's preset kind for a server preset.
pub fn preset_to_vibrato_kind(preset: &Preset) -> (r: vibrato_rkyv::dictionary::PresetDictionaryKind) {
    preset_kind(preset_dictionary(*preset))
}

/// Settings of the analysis server.
#[derive(Debug, Clone)]
pub struct Config {
    pub bind_addr: String,
    pub preset: Preset,
}

impl Config {
    /// The settings from the two optional environment values, each with its default: the
    /// bind address as given, the preset parsed ignoring case.
    pub fn from_values(bind_addr: Option<String>, preset: Option<String>) -> (r: Result<Config, ApiError>)
        ensures
            r matches Ok(c) ==> (match bind_addr {
                Some(b) => c.bind_addr@ == b@,
                None => c.bind_addr@ == DEFAULT_BIND_ADDR@,
            }),
            match preset {
                Some(p) => (spec_preset_named(lower_of(p@)) is Some <==> r is Ok)
                    && (r matches Ok(c) ==> Some(c.preset) == spec_preset_named(lower_of(p@))),
                None => r matches Ok(c) && c.preset == Preset::UnidicCwj,
            },
            r matches Err(e) ==> e.spec_kind() == ApiErrorKind::Config,
    {
        let bind = match bind_addr {
            Some(b) => b,
            None => DEFAULT_BIND_ADDR.to_owned(),
        };
        let parsed = match preset {
            Some(p) => Preset::parse(p.as_str()),
            None => {
                proof {
                    reveal_strlit("unidic-cwj");
                }
                Ok(Preset::UnidicCwj)
            },
        };
        match parsed {
            Ok(preset) => Ok(Config { bind_addr: bind, preset }),
            Err(m) => Err(ApiError::Config(m)),
        }
    }
}

} // verus!
