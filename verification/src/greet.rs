use vstd::prelude::*;
use vstd::string::StringExecFns;
use crate::text::contains_substring;

verus! {

/// The greeting: a fixed lead-in and sign-off around the caller's name.
pub open spec fn greet_message(name: Seq<char>) -> Seq<char> {
    "Hello, "@ + name + "! You've been greeted from Rust!"@
}

/// Builds the greeting for `name`; total, never fails.
pub fn greet(name: &str) -> (r: String)
    ensures
        r@ == greet_message(name@),
{
    let mut r = "Hello, ".to_owned();
    r.append(name);
    r.append("! You've been greeted from Rust!");
    r
}

/// Law: the greeting embeds the name verbatim as a contiguous substring.
pub proof fn lemma_greet_contains_name(name: Seq<char>)
    ensures
        contains_substring(greet_message(name), name),
{
    reveal_strlit("Hello, ");
    let lead: int = "Hello, "@.len() as int;
    assert(greet_message(name).subrange(lead, lead + name.len() as int) =~= name);
}

} // verus!
