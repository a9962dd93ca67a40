//! The command endpoint that the user interface can invoke.

use vstd::prelude::*;

verus! {

/// The text that every invocation of the `ping` command answers with.
pub open spec fn pong() -> Seq<char> {
    "pong"@
}

/// Answers a connectivity probe. It takes no input, has no effect and cannot fail.
pub fn ping() -> (reply: String)
    ensures
        reply@ == pong(),
{
    String::from_str("pong")
}

/// The reply is the same four letters on every invocation.
pub proof fn pong_is_fixed()
    ensures
        pong() == seq!['p', 'o', 'n', 'g'],
{
    reveal_strlit("pong");
    assert(pong() =~= seq!['p', 'o', 'n', 'g']);
}

} // verus!
