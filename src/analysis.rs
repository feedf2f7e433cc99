//! The morphological-analysis service behind the HTTP endpoint.
use vstd::prelude::*;
use vstd::string::StringSliceAdditionalSpecFns;
use vstd::utf8::*;

use crate::api::{ApiError, ApiErrorKind, TokenDto, WakeruRequest, WakeruResponse, MAX_TEXT_LENGTH};
use crate::tokenizer::{dto_of_morpheme, valid_morphemes, Morpheme, VibratoTokenizer};

use std::time::Instant;

verus! {

#[verifier::external_type_specification]
#[verifier::external_body]
pub struct ExInstant(Instant);

/// Relies on `Instant::now`: the current instant of the monotonic clock.
#[verifier::external_body]
fn clock_now() -> (r: Instant) {
    Instant::now()
}

/// Relies on `Instant::elapsed` and `Duration::as_millis`: whole milliseconds since
/// `start`.
#[verifier::external_body]
fn millis_since(start: &Instant) -> (r: u64) {
    start.elapsed().as_millis() as u64
}

/// Checks the request text: it must be non-empty and at most the maximum length in bytes.
pub fn check_text(text: &str) -> (r: Result<(), ApiError>)
    ensures
        text.len() == 0 ==> (r matches Err(e) && e.spec_kind() == ApiErrorKind::InvalidInput),
        text.len() > MAX_TEXT_LENGTH ==> r == Err::<(), ApiError>(
            ApiError::TextTooLong(text.len(), MAX_TEXT_LENGTH),
        ),
        0 < text.len() <= MAX_TEXT_LENGTH ==> r is Ok,
{
    let n = text.len();
    if n == 0 {
        return Err(ApiError::invalid_input("Text is empty"));
    }
    if n > MAX_TEXT_LENGTH {
        return Err(ApiError::text_too_long(n, MAX_TEXT_LENGTH));
    }
    Ok(())
}

/// Answers analysis requests with every morpheme of the text, filtered or not.
pub trait WakeruApiService {
    fn analyze(&self, request: WakeruRequest) -> Result<WakeruResponse, ApiError>;
}

/// The analysis service over one morphological tokenizer.
#[derive(Clone)]
pub struct WakeruApiServiceFull {
    inner: VibratoTokenizer,
}

impl WakeruApiServiceFull {
    pub fn from_tokenizer(inner: VibratoTokenizer) -> (r: Self) {
        WakeruApiServiceFull { inner }
    }

    /// Checks the text, segments it, and describes every morpheme with its indexing
    /// decision, together with the time the analysis took.
    pub fn analyze(&self, request: WakeruRequest) -> (r: Result<WakeruResponse, ApiError>)
        ensures
            request.text@.len() == 0 ==> (r matches Err(e) && e.spec_kind() == ApiErrorKind::InvalidInput),
            (encode_utf8(request.text@).len() as usize) > MAX_TEXT_LENGTH ==> r == Err::<WakeruResponse, ApiError>(
                ApiError::TextTooLong(encode_utf8(request.text@).len() as usize, MAX_TEXT_LENGTH),
            ),
            0 < (encode_utf8(request.text@).len() as usize) <= MAX_TEXT_LENGTH ==> r is Ok,
            r matches Ok(resp) ==> exists|ms: Seq<Morpheme>|
                resp.tokens@.len() == valid_morphemes(encode_utf8(request.text@), ms).len() && forall|j: int|
                    0 <= j < resp.tokens@.len() ==> #[trigger] dto_of_morpheme(
                        request.text@,
                        valid_morphemes(encode_utf8(request.text@), ms)[j],
                        resp.tokens@[j],
                    ),
    {
        let text = request.text.as_str();
        proof {
            if request.text@.len() == 0 {
                assert(encode_utf8(request.text@) =~= Seq::<u8>::empty());
            }
        }
        assert(text.spec_bytes() == encode_utf8(request.text@));
        match check_text(text) {
            Ok(()) => {},
            Err(e) => { return Err(e); },
        }
        let start = clock_now();
        let tokens = self.inner.describe(text);
        let elapsed_ms = millis_since(&start);
        Ok(WakeruResponse { tokens, elapsed_ms })
    }
}

impl WakeruApiService for WakeruApiServiceFull {
    fn analyze(&self, request: WakeruRequest) -> Result<WakeruResponse, ApiError> {
        WakeruApiServiceFull::analyze(self, request)
    }
}

} // verus!
