//! The token decoder. A token is a hyphen-delimited string
//! `<provider-tag>-<engine>[-<secret-segment>...]`: the first segment picks
//! the provider, the second is the engine name, and everything after the
//! second separator — hyphens included — is the downstream secret.

use vstd::prelude::*;
use vstd::string::StrSliceExecFns;
use vstd::string::StringExecFns;

use crate::prompt::build_prompt;
use crate::prompt::build_stop_sequence;
use crate::prompt::prompt_of;
use crate::prompt::stop_sequence;
use crate::strutil::dashed;
use crate::strutil::find_char;
use crate::strutil::first_at;
use crate::strutil::lemma_first_at_bounds;
use crate::strutil::lemma_first_at_is;
use crate::strutil::replace_underscores;
use crate::strutil::str_eq;

verus! {

/// The two supported completion backends, each with its fixed,
/// non-caller-configurable tuning default. The OpenAI temperature is the
/// default zero and is written directly into the request body text, so the
/// variant carries no field for it; the TextSynth variant carries its
/// `top_k`, which the decoder always sets to the default `1`.
#[derive(Clone, Copy, Debug, PartialEq, Eq, Structural)]
pub enum CompletionProvider {
    OpenAI,
    TextSynth { top_k: i32 },
}

/// One fully-specified outbound request descriptor: provider, engine,
/// fixed tuning, templated prompt and the secret that authenticates the
/// provider call. Constructed only by a successful decode.
pub struct Completion {
    provider: CompletionProvider,
    engine: String,
    max_tokens: u32,
    stop: String,
    prompt: String,
    token: String,
}

/// An incoming question together with the caller's opaque token.
#[derive(Clone, Debug)]
pub struct Question {
    pub question: String,
    pub token: String,
}

/// The first segment of `t`: everything before the first `-`, or all of
/// `t` when there is none.
pub open spec fn tag_of(t: Seq<char>) -> Seq<char> {
    t.take(first_at(t, '-'))
}

/// Whether `t` has a separator after its first segment, so that an engine
/// segment is present at all.
pub open spec fn has_tag_separator(t: Seq<char>) -> bool {
    first_at(t, '-') < t.len()
}

/// Everything after the first separator.
pub open spec fn rest_of(t: Seq<char>) -> Seq<char> {
    t.skip(first_at(t, '-') + 1)
}

/// The second segment of `t`: the engine name as encoded.
pub open spec fn engine_segment(t: Seq<char>) -> Seq<char> {
    rest_of(t).take(first_at(rest_of(t), '-'))
}

/// The remainder after the second separator, which is the secret rejoined:
/// splitting the remainder on `-` and joining the pieces with `-` gives
/// back the remainder itself. Empty when there is no second separator.
pub open spec fn secret_of(t: Seq<char>) -> Seq<char> {
    if first_at(rest_of(t), '-') < rest_of(t).len() {
        rest_of(t).skip(first_at(rest_of(t), '-') + 1)
    } else {
        Seq::empty()
    }
}

/// Whether the first segment is one of the two known provider tags.
pub open spec fn known_tag(t: Seq<char>) -> bool {
    tag_of(t) == "openai"@ || tag_of(t) == "textsynth"@
}

/// A token decodes exactly when its first segment is a known provider tag,
/// a second segment is present, and that engine segment is non-empty.
pub open spec fn decode_ok(t: Seq<char>) -> bool {
    known_tag(t) && has_tag_separator(t) && engine_segment(t).len() > 0
}

/// The provider a decodable token selects.
pub open spec fn provider_of(t: Seq<char>) -> CompletionProvider {
    if tag_of(t) == "openai"@ {
        CompletionProvider::OpenAI
    } else {
        CompletionProvider::TextSynth { top_k: 1 }
    }
}

/// The decoded engine name: for OpenAI every underscore is rewritten to a
/// hyphen (hyphenated engine names cannot survive the hyphen-delimited
/// token encoding, so underscore is the escape character); TextSynth
/// engine names pass through unchanged.
pub open spec fn engine_of(t: Seq<char>) -> Seq<char> {
    if tag_of(t) == "openai"@ {
        dashed(engine_segment(t))
    } else {
        engine_segment(t)
    }
}

impl Completion {
    pub closed spec fn spec_provider(&self) -> CompletionProvider {
        self.provider
    }

    pub closed spec fn spec_engine(&self) -> Seq<char> {
        self.engine@
    }

    pub closed spec fn spec_max_tokens(&self) -> u32 {
        self.max_tokens
    }

    pub closed spec fn spec_stop(&self) -> Seq<char> {
        self.stop@
    }

    pub closed spec fn spec_prompt(&self) -> Seq<char> {
        self.prompt@
    }

    pub closed spec fn spec_secret(&self) -> Seq<char> {
        self.token@
    }

    /// The tuning values no caller can configure: 256 tokens at most, the
    /// code-fence stop sequence, and the default TextSynth `top_k` of 1.
    pub open spec fn wf(&self) -> bool {
        &&& self.spec_max_tokens() == 256
        &&& self.spec_stop() == stop_sequence()
        &&& (self.spec_provider() matches CompletionProvider::TextSynth { top_k } ==> top_k == 1)
    }

    pub fn provider(&self) -> (p: CompletionProvider)
        ensures
            p == self.spec_provider(),
    {
        self.provider
    }

    pub fn engine(&self) -> (r: &str)
        ensures
            r@ == self.spec_engine(),
    {
        self.engine.as_str()
    }

    pub fn max_tokens(&self) -> (r: u32)
        ensures
            r == self.spec_max_tokens(),
    {
        self.max_tokens
    }

    pub fn stop(&self) -> (r: &str)
        ensures
            r@ == self.spec_stop(),
    {
        self.stop.as_str()
    }

    pub fn prompt(&self) -> (r: &str)
        ensures
            r@ == self.spec_prompt(),
    {
        self.prompt.as_str()
    }

    pub fn secret(&self) -> (r: &str)
        ensures
            r@ == self.spec_secret(),
    {
        self.token.as_str()
    }
}

impl Question {
    pub fn new(question: String, token: String) -> (q: Question)
        ensures
            q.question == question,
            q.token == token,
    {
        Question { question, token }
    }

    /// Decodes the token. On success the result is a `Completion` carrying
    /// the selected provider, the decoded engine, the fixed tuning, the
    /// templated prompt and the secret. On failure — unknown or missing
    /// provider tag, missing or empty engine segment — the original
    /// question comes back unchanged for delegation; this is a
    /// control-flow branch, not an error.
    pub fn deconstruct(&self) -> (r: Result<Completion, Question>)
        ensures
            r is Ok <==> decode_ok(self.token@),
            r matches Ok(c) ==> {
                &&& c.wf()
                &&& c.spec_provider() == provider_of(self.token@)
                &&& c.spec_engine() == engine_of(self.token@)
                &&& c.spec_secret() == secret_of(self.token@)
                &&& c.spec_prompt() == prompt_of(self.question@)
            },
            r matches Err(q) ==> q.question@ == self.question@ && q.token@ == self.token@,
    {
        let token_str: &str = self.token.as_str();
        let n: usize = token_str.unicode_len();
        let i: usize = find_char(token_str, '-');
        proof {
            lemma_first_at_bounds(self.token@, '-');
        }
        if i == n {
            return Err(Question { question: self.question.clone(), token: self.token.clone() });
        }
        let tag: &str = token_str.substring_char(0, i);
        let is_openai = str_eq(tag, "openai");
        let is_textsynth = if is_openai {
            false
        } else {
            str_eq(tag, "textsynth")
        };
        if !is_openai && !is_textsynth {
            return Err(Question { question: self.question.clone(), token: self.token.clone() });
        }
        let rest: &str = token_str.substring_char(i + 1, n);
        let m: usize = rest.unicode_len();
        let j: usize = find_char(rest, '-');
        proof {
            lemma_first_at_bounds(rest@, '-');
            assert(rest@ =~= rest_of(self.token@));
        }
        if j == 0 {
            return Err(Question { question: self.question.clone(), token: self.token.clone() });
        }
        let engine_raw: &str = rest.substring_char(0, j);
        let secret: String = if j < m {
            String::from_str(rest.substring_char(j + 1, m))
        } else {
            String::new()
        };
        let engine: String = if is_openai {
            replace_underscores(engine_raw)
        } else {
            String::from_str(engine_raw)
        };
        proof {
            assert(engine_raw@ =~= engine_segment(self.token@));
            assert(secret@ =~= secret_of(self.token@));
        }
        let provider = if is_openai {
            CompletionProvider::OpenAI
        } else {
            CompletionProvider::TextSynth { top_k: 1 }
        };
        Ok(
            Completion {
                provider,
                engine,
                max_tokens: 256,
                stop: build_stop_sequence(),
                prompt: build_prompt(self.question.as_str()),
                token: secret,
            },
        )
    }
}

/// A token with no `-` separator never decodes.
pub proof fn lemma_no_separator_fails(token: Seq<char>)
    requires
        forall|j: int| 0 <= j < token.len() ==> token[j] != '-',
    ensures
        !decode_ok(token),
{
    lemma_first_at_is(token, '-', token.len() as int);
}

/// A token whose first segment is not `openai` or `textsynth` never
/// decodes.
pub proof fn lemma_unknown_tag_fails(token: Seq<char>)
    requires
        tag_of(token) != "openai"@,
        tag_of(token) != "textsynth"@,
    ensures
        !decode_ok(token),
{
}

} // verus!
