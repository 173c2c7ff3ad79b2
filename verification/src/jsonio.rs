//! Response extraction. The provider's answer sits at a provider-specific
//! place in its JSON response: `choices[0].text` for OpenAI, `text` for
//! TextSynth. The JSON reading is done by serde_json behind the two
//! trusted extractors below; what each one returns is a function of the
//! body text alone, so it is given a name that the contracts pin the
//! result to. What a missing or wrongly-shaped field means is decided
//! here, in verified code.

use vstd::prelude::*;
use vstd::string::StringExecFns;

use crate::token::Completion;
use crate::token::CompletionProvider;

verus! {

/// The ways handling a provider response can fail beyond transport
/// trouble: the JSON layer failed, with the failure's rendering as the
/// payload.
pub enum Error {
    JsonHandleError(String),
}

/// The string at `choices[0].text` of `body` read as one JSON document,
/// when `body` parses and that field is present and is a string.
pub uninterp spec fn openai_answer_of(body: Seq<char>) -> Option<Seq<char>>;

/// The string at `text` of `body` read as one JSON document, when `body`
/// parses and that field is present and is a string.
pub uninterp spec fn textsynth_answer_of(body: Seq<char>) -> Option<Seq<char>>;

/// Relies on serde_json::from_str::<Value>, Value::get and Value::as_str:
/// the string at `choices[0].text` when `body` parses as JSON and has
/// one there, `None` otherwise — a function of the body text alone,
/// named `openai_answer_of`.
#[verifier::external_body]
fn openai_answer(body: &str) -> (r: Option<String>)
    ensures
        (r is Some) == (openai_answer_of(body@) is Some),
        r matches Some(a) ==> openai_answer_of(body@) == Some(a@),
{
    let v: serde_json::Value = serde_json::from_str(body).ok()?;
    Some(v.get("choices")?.get(0)?.get("text")?.as_str()?.to_string())
}

/// Relies on serde_json::from_str::<Value>, Value::get and Value::as_str:
/// the string at `text` when `body` parses as JSON and has one there,
/// `None` otherwise — a function of the body text alone, named
/// `textsynth_answer_of`.
#[verifier::external_body]
fn textsynth_answer(body: &str) -> (r: Option<String>)
    ensures
        (r is Some) == (textsynth_answer_of(body@) is Some),
        r matches Some(a) ==> textsynth_answer_of(body@) == Some(a@),
{
    let v: serde_json::Value = serde_json::from_str(body).ok()?;
    Some(v.get("text")?.as_str()?.to_string())
}

/// Turns what the extractor found into the completion outcome: the found
/// answer verbatim, or a parse failure carrying the raw response body as
/// its diagnostic payload.
pub fn finish_extraction(found: Option<String>, raw_body: &str) -> (r: Result<String, String>)
    ensures
        found matches Some(a) ==> (r matches Ok(o) && o == a),
        found is None ==> (r matches Err(e) && e@ == raw_body@),
{
    match found {
        Some(a) => Ok(a),
        None => Err(String::from_str(raw_body)),
    }
}

impl Completion {
    /// Applies this provider's extractor to the JSON text the provider
    /// sent back: the answer is the string at `choices[0].text` for
    /// OpenAI and at `text` for TextSynth. A failure — body not JSON,
    /// expected field missing or of the wrong shape, or an empty
    /// `choices` array — reports the raw body.
    pub fn complete(&self, body: &str) -> (r: Result<String, String>)
        ensures
            self.spec_provider() is OpenAI ==> ((r is Ok) == (openai_answer_of(body@) is Some)),
            self.spec_provider() is OpenAI ==> (r matches Ok(a) ==> openai_answer_of(body@)
                == Some(a@)),
            self.spec_provider() is TextSynth ==> ((r is Ok) == (textsynth_answer_of(body@)
                is Some)),
            self.spec_provider() is TextSynth ==> (r matches Ok(a) ==> textsynth_answer_of(body@)
                == Some(a@)),
            r matches Err(e) ==> e@ == body@,
    {
        let found: Option<String> = match self.provider() {
            CompletionProvider::OpenAI => openai_answer(body),
            CompletionProvider::TextSynth { .. } => textsynth_answer(body),
        };
        finish_extraction(found, body)
    }
}

} // verus!
