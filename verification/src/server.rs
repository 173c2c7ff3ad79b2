//! The server-mediated front-end's decisions. The presented bearer token
//! is looked up in a read-only mapping from delegation tokens to real
//! provider tokens, loaded once at startup; on a hit the resolved token
//! runs through the identical decode-and-complete pipeline, and a decode
//! failure there is a definitive client error — there is no further hop
//! of delegation.

use vstd::prelude::*;
use vstd::string::StrSliceExecFns;
use vstd::string::StringExecFns;

use crate::adapter::body_of;
use crate::adapter::endpoint_of;
use crate::adapter::ProviderRequest;
use crate::prompt::prompt_of;
use crate::strutil::str_eq;
use crate::token::decode_ok;
use crate::token::engine_of;
use crate::token::provider_of;
use crate::token::secret_of;
use crate::token::Completion;
use crate::token::Question;

verus! {

/// First-match lookup among key-value pairs.
pub open spec fn lookup_in(
    entries: Seq<(Seq<char>, Seq<char>)>,
    key: Seq<char>,
) -> Option<Seq<char>>
    decreases entries.len(),
{
    if entries.len() == 0 {
        None
    } else if entries[0].0 == key {
        Some(entries[0].1)
    } else {
        lookup_in(entries.drop_first(), key)
    }
}

/// The views of a list of owned key-value pairs.
pub open spec fn pairs_view(entries: Seq<(String, String)>) -> Seq<(Seq<char>, Seq<char>)> {
    entries.map_values(|e: (String, String)| (e.0@, e.1@))
}

/// The read-only delegation-token map: delegation token to real provider
/// token, constructed once at startup and never mutated afterwards.
pub struct TokenMappings {
    entries: Vec<(String, String)>,
}

impl TokenMappings {
    pub closed spec fn entries_view(&self) -> Seq<(Seq<char>, Seq<char>)> {
        pairs_view(self.entries@)
    }

    pub fn new(entries: Vec<(String, String)>) -> (m: TokenMappings)
        ensures
            m.entries_view() == pairs_view(entries@),
    {
        TokenMappings { entries }
    }

    /// The provider token the presented delegation token resolves to, if
    /// any: the value of the first pair whose key is `key`.
    pub fn lookup(&self, key: &str) -> (r: Option<String>)
        ensures
            r matches Some(v) ==> lookup_in(self.entries_view(), key@) == Some(v@),
            r is None ==> lookup_in(self.entries_view(), key@) is None,
    {
        let n: usize = self.entries.len();
        let mut i: usize = 0;
        proof {
            assert(self.entries_view().skip(0) =~= self.entries_view());
        }
        while i < n
            invariant
                0 <= i <= n,
                n == self.entries@.len(),
                lookup_in(self.entries_view(), key@) == lookup_in(
                    self.entries_view().skip(i as int),
                    key@,
                ),
            decreases n - i,
        {
            proof {
                assert(self.entries_view().skip(i as int)[0] == (
                    self.entries@[i as int].0@,
                    self.entries@[i as int].1@,
                ));
                assert(self.entries_view().skip(i as int).drop_first() =~= self.entries_view().skip(
                    i as int + 1,
                ));
            }
            if str_eq(self.entries[i].0.as_str(), key) {
                return Some(self.entries[i].1.clone());
            }
            i = i + 1;
        }
        proof {
            assert(self.entries_view().skip(n as int) =~= Seq::<(Seq<char>, Seq<char>)>::empty());
        }
        None
    }
}

/// What the server front-end decides for one inbound request.
pub enum ServerOutcome {
    /// No usable bearer credential, or one that the mapping does not
    /// know: an authentication error.
    Unauthorized,
    /// The mapping resolved the credential, but the resolved token does
    /// not decode: a definitive client error, with no further hop of
    /// delegation.
    BadToken,
    /// The resolved token decoded; the one provider call to make.
    Proceed { completion: Completion, request: ProviderRequest },
}

/// Decides one inbound server request. The presented `Authorization`
/// header must be of the form `Bearer <token>` — a missing header, one
/// too short to carry the scheme, or one under another scheme is an
/// authentication failure. The part after the prefix is looked up in the
/// mapping; the resolved provider token then runs through the decode
/// pipeline on the inbound question text.
pub fn handle_delegation(map: &TokenMappings, auth_header: Option<&str>, question_text: &str) -> (r:
    ServerOutcome)
    ensures
        auth_header is None ==> r is Unauthorized,
        auth_header matches Some(h) ==> {
            if h@.len() < "Bearer "@.len() {
                r is Unauthorized
            } else if h@.take("Bearer "@.len() as int) != "Bearer "@ {
                r is Unauthorized
            } else {
                let key = h@.skip("Bearer "@.len() as int);
                match lookup_in(map.entries_view(), key) {
                    None => r is Unauthorized,
                    Some(tok) => {
                        &&& decode_ok(tok) ==> (r matches ServerOutcome::Proceed {
                            completion,
                            request,
                        } && {
                            &&& completion.wf()
                            &&& completion.spec_provider() == provider_of(tok)
                            &&& completion.spec_engine() == engine_of(tok)
                            &&& completion.spec_secret() == secret_of(tok)
                            &&& completion.spec_prompt() == prompt_of(question_text@)
                            &&& request.url@ == endpoint_of(provider_of(tok), engine_of(tok))
                            &&& request.body@ == body_of(completion)
                            &&& request.bearer@ == secret_of(tok)
                        })
                        &&& !decode_ok(tok) ==> r is BadToken
                    },
                }
            }
        },
{
    proof {
        reveal_strlit("Bearer ");
    }
    let header: &str = match auth_header {
        None => {
            return ServerOutcome::Unauthorized;
        },
        Some(h) => h,
    };
    let header_len: usize = header.unicode_len();
    if header_len < 7 {
        return ServerOutcome::Unauthorized;
    }
    let scheme: &str = header.substring_char(0, 7);
    if !str_eq(scheme, "Bearer ") {
        return ServerOutcome::Unauthorized;
    }
    let key: &str = header.substring_char(7, header_len);
    let token: String = match map.lookup(key) {
        None => {
            return ServerOutcome::Unauthorized;
        },
        Some(t) => t,
    };
    let question = Question::new(String::from_str(question_text), token);
    match question.deconstruct() {
        Ok(completion) => {
            let request = completion.request();
            ServerOutcome::Proceed { completion, request }
        },
        Err(_) => ServerOutcome::BadToken,
    }
}

} // verus!
