//! Provider-specific request construction: the endpoint URL and the JSON
//! request body for each of the two backends, and the bearer header line.

use vstd::prelude::*;
use vstd::string::StringExecFns;

use crate::json_text::dec_str;
use crate::json_text::json_escape;
use crate::json_text::json_escaped;
use crate::json_text::u32_to_dec;
use crate::token::Completion;
use crate::token::CompletionProvider;

verus! {

/// The endpoint a completion for `engine` is posted to. The two providers
/// differ in host and in the final path segment.
pub open spec fn endpoint_of(provider: CompletionProvider, engine: Seq<char>) -> Seq<char> {
    if provider is OpenAI {
        "https://api.openai.com/v1/engines/"@ + engine + "/completion"@
    } else {
        "https://api.textsynth.com/v1/engines/"@ + engine + "/completions"@
    }
}

/// The OpenAI request body: `max_tokens`, the fixed temperature `0.0`,
/// the stop sequence and the prompt, as one JSON object text.
pub open spec fn openai_body_of(max_tokens: nat, stop: Seq<char>, prompt: Seq<char>) -> Seq<
    char,
> {
    "{\"max_tokens\":"@ + dec_str(max_tokens) + ",\"temperature\":0.0,\"stop\":\""@ + json_escaped(
        stop,
    ) + "\",\"prompt\":\""@ + json_escaped(prompt) + "\"}"@
}

/// The TextSynth request body: `max_tokens`, `top_k`, the stop sequence
/// and the prompt, as one JSON object text.
pub open spec fn textsynth_body_of(
    max_tokens: nat,
    top_k: nat,
    stop: Seq<char>,
    prompt: Seq<char>,
) -> Seq<char> {
    "{\"max_tokens\":"@ + dec_str(max_tokens) + ",\"top_k\":"@ + dec_str(top_k) + ",\"stop\":\""@
        + json_escaped(stop) + "\",\"prompt\":\""@ + json_escaped(prompt) + "\"}"@
}

/// The body the adapter builds for `c`.
pub open spec fn body_of(c: Completion) -> Seq<char> {
    match c.spec_provider() {
        CompletionProvider::OpenAI => openai_body_of(
            c.spec_max_tokens() as nat,
            c.spec_stop(),
            c.spec_prompt(),
        ),
        CompletionProvider::TextSynth { top_k } => textsynth_body_of(
            c.spec_max_tokens() as nat,
            top_k as nat,
            c.spec_stop(),
            c.spec_prompt(),
        ),
    }
}

/// Everything the transport needs for the single provider call: where to
/// post, the bearer credential, and the JSON body.
pub struct ProviderRequest {
    pub url: String,
    pub bearer: String,
    pub body: String,
}

/// The value of the `Authorization` header for a call made with `token`.
pub fn bearer_header(token: &str) -> (r: String)
    ensures
        r@ == "Bearer "@ + token@,
{
    let r = String::from_str("Bearer ").concat(token);
    proof {
        assert(r@ =~= "Bearer "@ + token@);
    }
    r
}

impl Completion {
    /// The endpoint URL and JSON body for this completion; the bearer is
    /// the secret the token decoded to.
    pub fn request(&self) -> (r: ProviderRequest)
        requires
            self.wf(),
        ensures
            r.url@ == endpoint_of(self.spec_provider(), self.spec_engine()),
            r.body@ == body_of(*self),
            r.bearer@ == self.spec_secret(),
    {
        let is_openai = match self.provider() {
            CompletionProvider::OpenAI => true,
            CompletionProvider::TextSynth { .. } => false,
        };
        let mut url: String = if is_openai {
            String::from_str("https://api.openai.com/v1/engines/")
        } else {
            String::from_str("https://api.textsynth.com/v1/engines/")
        };
        url.append(self.engine());
        if is_openai {
            url.append("/completion");
        } else {
            url.append("/completions");
        }
        let mut body: String = String::from_str("{\"max_tokens\":");
        let rendered_max = u32_to_dec(self.max_tokens());
        body.append(rendered_max.as_str());
        if is_openai {
            body.append(",\"temperature\":0.0,\"stop\":\"");
        } else {
            body.append(",\"top_k\":");
            let top_k: i32 = match self.provider() {
                CompletionProvider::TextSynth { top_k } => top_k,
                CompletionProvider::OpenAI => 1,
            };
            let rendered_top_k = u32_to_dec(top_k as u32);
            body.append(rendered_top_k.as_str());
            body.append(",\"stop\":\"");
        }
        let escaped_stop = json_escape(self.stop());
        body.append(escaped_stop.as_str());
        body.append("\",\"prompt\":\"");
        let escaped_prompt = json_escape(self.prompt());
        body.append(escaped_prompt.as_str());
        body.append("\"}");
        proof {
            assert(url@ =~= endpoint_of(self.spec_provider(), self.spec_engine()));
            assert(body@ =~= body_of(*self));
        }
        ProviderRequest { url, bearer: String::from_str(self.secret()), body }
    }
}

} // verus!
