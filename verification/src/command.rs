//! The command handler and its model.

use vstd::prelude::*;

verus! {

/// The greeting for `s`: the five characters `oof, `, then `s` as it is, then
/// an exclamation mark.
pub open spec fn greeting(s: Seq<char>) -> Seq<char> {
    seq!['o', 'o', 'f', ',', ' '] + s + seq!['!']
}

/// The greeting is the text `"oof, "`, followed by the argument, followed by
/// the text `"!"`, for every argument.
pub proof fn lemma_greeting_literals(s: Seq<char>)
    ensures
        greeting(s) == "oof, "@ + s + "!"@,
{
    reveal_strlit("oof, ");
    reveal_strlit("!");
}

/// The greeting depends on nothing but the argument: equal arguments have
/// equal greetings, so two calls of `temp` on the same text return the same
/// text.
pub proof fn lemma_greeting_deterministic(a: Seq<char>, b: Seq<char>)
    requires
        a == b,
    ensures
        greeting(a) == greeting(b),
{
}

/// Answers the front end's call of the command `temp`.
///
/// Every string is accepted, the empty one too, and there is no failure: the
/// result is always the greeting for `s`, and `s` is left as it was.
pub fn temp(s: &str) -> (out: String)
    ensures
        out@ == greeting(s@),
{
    let mut out = String::from_str("oof, ");
    out.append(s);
    out.append("!");
    proof {
        lemma_greeting_literals(s@);
    }
    out
}

} // verus!
