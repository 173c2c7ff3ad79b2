//! Question-to-prompt templating. Every provider receives the same fixed
//! template around the caller's question, and generation is stopped at the
//! closing code fence.

use vstd::prelude::*;
use vstd::string::StringExecFns;

verus! {

/// The templated prompt: `how {question}\nA:\n```bash\n`.
pub open spec fn prompt_of(question: Seq<char>) -> Seq<char> {
    "how "@ + question + "\nA:\n```bash\n"@
}

/// The stop sequence every provider is asked to halt at: the newline and
/// the closing code fence.
pub open spec fn stop_sequence() -> Seq<char> {
    "\n```"@
}

/// Builds the fixed prompt around `question`. No escaping is applied:
/// question text that collides with the template delimiters is an accepted
/// limitation.
pub fn build_prompt(question: &str) -> (r: String)
    ensures
        r@ == prompt_of(question@),
{
    let r = String::from_str("how ").concat(question).concat("\nA:\n```bash\n");
    proof {
        assert(r@ =~= prompt_of(question@));
    }
    r
}

/// The stop sequence as an owned string.
pub fn build_stop_sequence() -> (r: String)
    ensures
        r@ == stop_sequence(),
{
    String::from_str("\n```")
}

} // verus!
