//! The morphological tokenizer adapter and its content-word filter.
use vstd::prelude::*;
use vstd::string::StringSliceAdditionalSpecFns;
use vstd::utf8::*;

use std::sync::Arc;

verus! {

/// Whether the byte sequence `s` begins with the bytes `p`.
pub open spec fn bytes_begin_with(s: Seq<u8>, p: Seq<u8>) -> bool {
    p.len() <= s.len() && s.subrange(0, p.len() as int) == p
}

/// Whether the UTF-8 encoding of `feature` begins with that of `prefix`.
pub open spec fn feature_begins(feature: Seq<char>, prefix: Seq<char>) -> bool {
    bytes_begin_with(encode_utf8(feature), encode_utf8(prefix))
}

/// The content-word decision on a dictionary feature string, rule by rule.
pub open spec fn spec_should_index(f: Seq<char>) -> bool {
    if feature_begins(f, "助詞"@) || feature_begins(f, "助動詞"@) || feature_begins(f, "記号"@)
        || feature_begins(f, "フィラー"@) || feature_begins(f, "感動詞"@) || feature_begins(
        f,
        "接続詞"@,
    ) || feature_begins(f, "接頭詞"@) || feature_begins(f, "連体詞"@) {
        false
    } else if feature_begins(f, "接尾辞,名詞的"@) {
        true
    } else if feature_begins(f, "名詞"@) {
        !(feature_begins(f, "名詞,代名詞"@) || feature_begins(f, "名詞,非自立"@))
    } else if feature_begins(f, "動詞"@) || feature_begins(f, "形容詞"@) {
        true
    } else if feature_begins(f, "形状詞"@) {
        true
    } else if feature_begins(f, "副詞"@) {
        feature_begins(f, "副詞,一般"@)
    } else {
        false
    }
}

/// Whether the UTF-8 bytes of `s` begin with those of `prefix`.
pub fn begins_with(s: &str, prefix: &str) -> (r: bool)
    ensures
        r == feature_begins(s@, prefix@),
{
    let sb: &[u8] = s.as_bytes();
    let pb: &[u8] = prefix.as_bytes();
    if pb.len() > sb.len() {
        return false;
    }
    let mut i: usize = 0;
    while i < pb.len()
        invariant
            pb@ == encode_utf8(prefix@),
            sb@ == encode_utf8(s@),
            pb@.len() <= sb@.len(),
            0 <= i <= pb@.len(),
            forall|j: int| 0 <= j < i ==> sb@[j] == pb@[j],
        decreases pb@.len() - i,
    {
        if sb[i] != pb[i] {
            return false;
        }
        i = i + 1;
    }
    assert(sb@.subrange(0, pb@.len() as int) =~= pb@);
    true
}

/// Whether two strings are equal, compared byte by byte.
pub fn same_text(a: &str, b: &str) -> (r: bool)
    ensures
        r == (a@ == b@),
{
    let ab: &[u8] = a.as_bytes();
    let bb: &[u8] = b.as_bytes();
    proof {
        encode_utf8_decode_utf8(a@);
        encode_utf8_decode_utf8(b@);
    }
    if ab.len() != bb.len() {
        return false;
    }
    let mut i: usize = 0;
    while i < ab.len()
        invariant
            ab@ == encode_utf8(a@),
            bb@ == encode_utf8(b@),
            ab@.len() == bb@.len(),
            0 <= i <= ab@.len(),
            forall|j: int| 0 <= j < i ==> ab@[j] == bb@[j],
        decreases ab@.len() - i,
    {
        if ab[i] != bb[i] {
            return false;
        }
        i = i + 1;
    }
    assert(ab@ =~= bb@);
    true
}

/// Decides whether a morpheme with the dictionary feature string `feature` is a content
/// word that goes into the index.
pub fn should_index(feature: &str) -> (r: bool)
    ensures
        r == spec_should_index(feature@),
{
    if begins_with(feature, "助詞") || begins_with(feature, "助動詞") || begins_with(feature, "記号")
        || begins_with(feature, "フィラー") || begins_with(feature, "感動詞") || begins_with(
        feature,
        "接続詞",
    ) || begins_with(feature, "接頭詞") || begins_with(feature, "連体詞") {
        return false;
    }
    if begins_with(feature, "接尾辞,名詞的") {
        return true;
    }
    if begins_with(feature, "名詞") {
        if begins_with(feature, "名詞,代名詞") || begins_with(feature, "名詞,非自立") {
            return false;
        }
        return true;
    }
    if begins_with(feature, "動詞") || begins_with(feature, "形容詞") {
        return true;
    }
    if begins_with(feature, "形状詞") {
        return true;
    }
    if begins_with(feature, "副詞") {
        return begins_with(feature, "副詞,一般");
    }
    false
}


#[verifier::external_type_specification]
#[verifier::external_body]
pub struct ExVibratoTokenizer(vibrato_rkyv::Tokenizer);

#[verifier::external_type_specification]
#[verifier::external_body]
pub struct ExDictionary(vibrato_rkyv::Dictionary);

/// Relies on vibrato_rkyv's `Clone` for `Tokenizer`: a handle copy that shares the
/// dictionary.
pub assume_specification[ <vibrato_rkyv::Tokenizer as Clone>::clone ](
    t: &vibrato_rkyv::Tokenizer,
) -> vibrato_rkyv::Tokenizer;

/// One morpheme of the segmenter's best path: its byte range in the input and the
/// feature string of its dictionary entry.
#[derive(Debug, Clone)]
pub struct Morpheme {
    pub start: usize,
    pub end: usize,
    pub feature: String,
}

/// A token handed to the index: a surface form with its byte range and its position
/// among the emitted tokens.
#[derive(Debug, Clone)]
pub struct Token {
    pub surface: String,
    pub byte_start: usize,
    pub byte_end: usize,
    pub position: usize,
}

/// Whether the byte range of `m` is non-empty, inside `text` and on character boundaries.
pub open spec fn valid_span(text: Seq<u8>, start: usize, end: usize) -> bool {
    &&& start < end <= text.len()
    &&& is_char_boundary(text, start as int)
    &&& is_char_boundary(text.subrange(start as int, text.len() as int), end - start)
}

/// The morphemes that become tokens, in their order: those with a valid range whose
/// feature passes the content-word filter.
pub open spec fn kept_morphemes(text: Seq<u8>, ms: Seq<Morpheme>) -> Seq<Morpheme>
    decreases ms.len(),
{
    if ms.len() == 0 {
        Seq::empty()
    } else {
        let prev = kept_morphemes(text, ms.drop_last());
        if valid_span(text, ms.last().start, ms.last().end) && spec_should_index(ms.last().feature@) {
            prev.push(ms.last())
        } else {
            prev
        }
    }
}

/// Relies on vibrato_rkyv's `Tokenizer::new_worker`, `Worker::reset_sentence`,
/// `Worker::tokenize` and `Worker::token_iter`: the best segmentation path of `text`, each
/// morpheme as its byte range and feature string. Nothing is assumed of the values.
#[verifier::external_body]
fn segment(tokenizer: &vibrato_rkyv::Tokenizer, text: &str) -> (r: Vec<Morpheme>) {
    let mut worker = tokenizer.new_worker();
    worker.reset_sentence(text);
    worker.tokenize();
    worker.token_iter().map(
        |t| Morpheme { start: t.range_byte().start, end: t.range_byte().end, feature: t.feature().to_string() },
    ).collect()
}

/// Relies on vibrato_rkyv's `Tokenizer::from_shared_dictionary`: a tokenizer over a
/// dictionary shared by reference.
#[verifier::external_body]
fn tokenizer_over(dict: Arc<vibrato_rkyv::Dictionary>) -> (r: vibrato_rkyv::Tokenizer) {
    vibrato_rkyv::Tokenizer::from_shared_dictionary(dict)
}

/// Relies on vibrato_rkyv's `Tokenizer::new`: a tokenizer that owns its dictionary.
#[verifier::external_body]
fn tokenizer_owning(dict: vibrato_rkyv::Dictionary) -> (r: vibrato_rkyv::Tokenizer) {
    vibrato_rkyv::Tokenizer::new(dict)
}

/// The surface of a morpheme whose range was checked: the bytes of `text` in that range.
fn surface_of(text: &str, start: usize, end: usize) -> (r: String)
    requires
        valid_span(text.spec_bytes(), start, end),
    ensures
        encode_utf8(r@) == encode_utf8(text@).subrange(start as int, end as int),
{
    let (_, rest) = text.split_at(start);
    let (surface, _) = rest.split_at(end - start);
    assert(surface.spec_bytes() =~= text.spec_bytes().subrange(start as int, end as int));
    surface.to_owned()
}

/// Builds the token sequence of `text` from the segmenter's morphemes: every morpheme with
/// a valid byte range that passes the content-word filter becomes one token, in order,
/// with its surface cut out of `text` and consecutive positions from 0.
pub fn tokens_from_morphemes(text: &str, morphemes: &Vec<Morpheme>) -> (r: Vec<Token>)
    ensures
        r@.len() == kept_morphemes(text.spec_bytes(), morphemes@).len(),
        forall|i: int|
            0 <= i < r@.len() ==> {
                let m = #[trigger] kept_morphemes(text.spec_bytes(), morphemes@)[i];
                &&& r@[i].byte_start == m.start
                &&& r@[i].byte_end == m.end
                &&& r@[i].position == i
                &&& encode_utf8(r@[i].surface@) == encode_utf8(text@).subrange(
                    m.start as int,
                    m.end as int,
                )
            },
{
    let bytes: &[u8] = text.as_bytes();
    let mut out: Vec<Token> = Vec::new();
    let mut i: usize = 0;
    while i < morphemes.len()
        invariant
            0 <= i <= morphemes@.len(),
            bytes@ == text.spec_bytes(),
            out@.len() == kept_morphemes(text.spec_bytes(), morphemes@.subrange(0, i as int)).len(),
            forall|k: int|
                0 <= k < out@.len() ==> {
                    let m = #[trigger] kept_morphemes(
                        text.spec_bytes(),
                        morphemes@.subrange(0, i as int),
                    )[k];
                    &&& out@[k].byte_start == m.start
                    &&& out@[k].byte_end == m.end
                    &&& out@[k].position == k
                    &&& encode_utf8(out@[k].surface@) == encode_utf8(text@).subrange(
                        m.start as int,
                        m.end as int,
                    )
                },
        decreases morphemes@.len() - i,
    {
        let m = &morphemes[i];
        let ghost pre = morphemes@.subrange(0, i as int);
        let ghost next = morphemes@.subrange(0, i as int + 1);
        assert(next.drop_last() =~= pre);
        assert(next.last() == morphemes@[i as int]);
        let ok_range = m.start < m.end && m.end <= bytes.len() && text.is_char_boundary(m.start);
        let mut ok = false;
        if ok_range {
            let (_, rest) = text.split_at(m.start);
            assert(rest.spec_bytes() =~= text.spec_bytes().subrange(
                m.start as int,
                text.spec_bytes().len() as int,
            ));
            ok = rest.is_char_boundary(m.end - m.start);
        }
        assert(ok == valid_span(text.spec_bytes(), m.start, m.end));
        if ok && should_index(m.feature.as_str()) {
            let surface = surface_of(text, m.start, m.end);
            let tok = Token { surface, byte_start: m.start, byte_end: m.end, position: out.len() };
            out.push(tok);
        }
        i = i + 1;
    }
    assert(morphemes@.subrange(0, morphemes@.len() as int) =~= morphemes@);
    out
}

/// A reusable, cloneable morphological tokenizer over a shared dictionary.
#[derive(Clone)]
pub struct VibratoTokenizer {
    inner: vibrato_rkyv::Tokenizer,
}

impl VibratoTokenizer {
    pub fn from_dictionary(dict: vibrato_rkyv::Dictionary) -> (r: Self) {
        VibratoTokenizer { inner: tokenizer_owning(dict) }
    }

    pub fn from_shared_dictionary(dict: Arc<vibrato_rkyv::Dictionary>) -> (r: Self) {
        VibratoTokenizer { inner: tokenizer_over(dict) }
    }

    /// Segments `text` and returns its content-word tokens. Whatever the segmenter
    /// returned, every token's surface is exactly the bytes of `text` in its range, the
    /// range is non-empty and inside `text`, and positions count up from 0.
    pub fn analyze(&self, text: &str) -> (r: Vec<Token>)
        ensures
            forall|i: int|
                #![trigger r@[i]]
                0 <= i < r@.len() ==> {
                    &&& r@[i].byte_start < r@[i].byte_end <= text.spec_bytes().len()
                    &&& valid_span(text.spec_bytes(), r@[i].byte_start, r@[i].byte_end)
                    &&& r@[i].position == i
                    &&& encode_utf8(r@[i].surface@) == encode_utf8(text@).subrange(
                        r@[i].byte_start as int,
                        r@[i].byte_end as int,
                    )
                },
            exists|ms: Seq<Morpheme>|
                r@.len() == kept_morphemes(text.spec_bytes(), ms).len() && forall|i: int|
                    0 <= i < r@.len() ==> (#[trigger] kept_morphemes(text.spec_bytes(), ms)[i]).start
                        == r@[i].byte_start && kept_morphemes(text.spec_bytes(), ms)[i].end
                        == r@[i].byte_end,
    {
        let morphemes = segment(&self.inner, text);
        let r = tokens_from_morphemes(text, &morphemes);
        proof {
            assert forall|i: int| #![trigger r@[i]] 0 <= i < r@.len() implies {
                &&& r@[i].byte_start < r@[i].byte_end <= text.spec_bytes().len()
                &&& valid_span(text.spec_bytes(), r@[i].byte_start, r@[i].byte_end)
                &&& r@[i].position == i
                &&& encode_utf8(r@[i].surface@) == encode_utf8(text@).subrange(
                    r@[i].byte_start as int,
                    r@[i].byte_end as int,
                )
            } by {
                let m = kept_morphemes(text.spec_bytes(), morphemes@)[i];
                lemma_kept_valid(text.spec_bytes(), morphemes@, i);
            }
        }
        r
    }
}

proof fn lemma_kept_valid(text: Seq<u8>, ms: Seq<Morpheme>, i: int)
    requires
        0 <= i < kept_morphemes(text, ms).len(),
    ensures
        valid_span(text, kept_morphemes(text, ms)[i].start, kept_morphemes(text, ms)[i].end),
        spec_should_index(kept_morphemes(text, ms)[i].feature@),
    decreases ms.len(),
{
    if ms.len() > 0 {
        let prev = kept_morphemes(text, ms.drop_last());
        if i < prev.len() {
            lemma_kept_valid(text, ms.drop_last(), i);
        }
    }
}


/// The morphemes with a valid byte range, in order.
pub open spec fn valid_morphemes(text: Seq<u8>, ms: Seq<Morpheme>) -> Seq<Morpheme>
    decreases ms.len(),
{
    if ms.len() == 0 {
        Seq::empty()
    } else {
        let prev = valid_morphemes(text, ms.drop_last());
        if valid_span(text, ms.last().start, ms.last().end) {
            prev.push(ms.last())
        } else {
            prev
        }
    }
}

/// Whether `d` describes the morpheme `m` of `text`: its surface is the bytes of `text` in
/// the morpheme's range, and the rest is as `TokenDto::from_morpheme` builds it.
pub open spec fn dto_of_morpheme(text: Seq<char>, m: Morpheme, d: crate::api::TokenDto) -> bool {
    &&& encode_utf8(d.surface@) == encode_utf8(text).subrange(m.start as int, m.end as int)
    &&& crate::api::describes(d, d.surface@, m.feature@, m.start, m.end, spec_should_index(m.feature@))
}

/// Describes every morpheme with a valid byte range, kept or not by the content-word
/// filter, in order, with its surface cut out of `text`.
pub fn dtos_from_morphemes(text: &str, morphemes: &Vec<Morpheme>) -> (r: Vec<crate::api::TokenDto>)
    ensures
        r@.len() == valid_morphemes(text.spec_bytes(), morphemes@).len(),
        forall|j: int| 0 <= j < r@.len() ==> #[trigger] dto_of_morpheme(text@, valid_morphemes(text.spec_bytes(), morphemes@)[j], r@[j]),
{
    let bytes: &[u8] = text.as_bytes();
    let mut out: Vec<crate::api::TokenDto> = Vec::new();
    let mut i: usize = 0;
    while i < morphemes.len()
        invariant
            0 <= i <= morphemes@.len(),
            bytes@ == text.spec_bytes(),
            out@.len() == valid_morphemes(text.spec_bytes(), morphemes@.subrange(0, i as int)).len(),
            forall|j: int| 0 <= j < out@.len() ==> #[trigger] dto_of_morpheme(
                text@,
                valid_morphemes(text.spec_bytes(), morphemes@.subrange(0, i as int))[j],
                out@[j],
            ),
        decreases morphemes@.len() - i,
    {
        let m = &morphemes[i];
        let ghost pre = morphemes@.subrange(0, i as int);
        let ghost next = morphemes@.subrange(0, i as int + 1);
        assert(next.drop_last() =~= pre);
        assert(next.last() == morphemes@[i as int]);
        let ok_range = m.start < m.end && m.end <= bytes.len() && text.is_char_boundary(m.start);
        let mut ok = false;
        if ok_range {
            let (_, rest) = text.split_at(m.start);
            assert(rest.spec_bytes() =~= text.spec_bytes().subrange(
                m.start as int,
                text.spec_bytes().len() as int,
            ));
            ok = rest.is_char_boundary(m.end - m.start);
        }
        assert(ok == valid_span(text.spec_bytes(), m.start, m.end));
        if ok {
            let surface = surface_of(text, m.start, m.end);
            let dto = crate::api::TokenDto::from_morpheme(surface.as_str(), m.feature.as_str(), m.start, m.end);
            out.push(dto);
        }
        i = i + 1;
    }
    assert(morphemes@.subrange(0, morphemes@.len() as int) =~= morphemes@);
    out
}

impl VibratoTokenizer {
    /// Segments `text` and describes every morpheme of the segmenter's result whose byte
    /// range is valid, as `dtos_from_morphemes` does.
    pub fn describe(&self, text: &str) -> (r: Vec<crate::api::TokenDto>)
        ensures
            exists|ms: Seq<Morpheme>|
                r@.len() == valid_morphemes(text.spec_bytes(), ms).len() && forall|j: int|
                    0 <= j < r@.len() ==> #[trigger] dto_of_morpheme(text@, valid_morphemes(text.spec_bytes(), ms)[j], r@[j]),
    {
        let morphemes = segment(&self.inner, text);
        dtos_from_morphemes(text, &morphemes)
    }
}

} // verus!
