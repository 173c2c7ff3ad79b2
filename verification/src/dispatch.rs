//! The local-first dispatch policy. A question's token is decoded locally;
//! on success the one outbound call is the provider call, authenticated
//! with the secret embedded in the token. On failure the original question
//! is forwarded unchanged to a configured remote endpoint, with the
//! original token verbatim as the bearer credential of that delegation
//! call.

use vstd::prelude::*;
use vstd::string::StringExecFns;

use crate::adapter::body_of;
use crate::adapter::endpoint_of;
use crate::adapter::ProviderRequest;
use crate::prompt::prompt_of;
use crate::token::decode_ok;
use crate::token::engine_of;
use crate::token::provider_of;
use crate::token::secret_of;
use crate::token::Question;

verus! {

/// Everything the transport needs for a delegation call: the remote
/// endpoint, the caller's original token as the bearer credential, and
/// the question text to pass along.
pub struct DelegationRequest {
    pub url: String,
    pub bearer: String,
    pub question: String,
}

/// The decision the dispatcher hands to the transport: one local provider
/// call, or one delegation call. Never both.
pub enum DispatchPlan {
    Local { completion: crate::token::Completion, request: ProviderRequest },
    Delegate { delegation: DelegationRequest },
}

/// Decides the single outbound call for `question`. When the token
/// decodes, the plan is the provider call built from the decoded
/// completion and no delegation happens; when it does not, the plan is
/// one delegation call to `server_url` carrying the question text and the
/// original token verbatim as bearer.
pub fn dispatch(question: Question, server_url: &str) -> (r: DispatchPlan)
    ensures
        decode_ok(question.token@) ==> (r matches DispatchPlan::Local { completion, request } && {
            &&& completion.wf()
            &&& completion.spec_provider() == provider_of(question.token@)
            &&& completion.spec_engine() == engine_of(question.token@)
            &&& completion.spec_secret() == secret_of(question.token@)
            &&& completion.spec_prompt() == prompt_of(question.question@)
            &&& request.url@ == endpoint_of(provider_of(question.token@), engine_of(question.token@))
            &&& request.body@ == body_of(completion)
            &&& request.bearer@ == secret_of(question.token@)
        }),
        !decode_ok(question.token@) ==> (r matches DispatchPlan::Delegate { delegation } && {
            &&& delegation.url@ == server_url@
            &&& delegation.bearer@ == question.token@
            &&& delegation.question@ == question.question@
        }),
{
    match question.deconstruct() {
        Ok(completion) => {
            let request = completion.request();
            DispatchPlan::Local { completion, request }
        },
        Err(original) => DispatchPlan::Delegate {
            delegation: DelegationRequest {
                url: String::from_str(server_url),
                bearer: original.token,
                question: original.question,
            },
        },
    }
}

} // verus!
