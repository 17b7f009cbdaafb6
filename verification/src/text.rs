//! Building the messages that a run reports.

use vstd::prelude::*;
use vstd::string::StringExecFns;

verus! {

/// The separator between a context and the cause it explains.
pub open spec fn cause_separator() -> Seq<char> {
    seq![':', ' ']
}

/// A cause with the context it arose in: the context, a colon, a space, the cause.
pub open spec fn with_context(context: Seq<char>, cause: Seq<char>) -> Seq<char> {
    context + cause_separator() + cause
}

/// Joins two pieces of text.
pub fn join(head: &str, tail: &str) -> (joined: String)
    ensures
        joined@ == head@ + tail@,
{
    let mut joined = String::from_str(head);
    joined.append(tail);
    joined
}

/// Prefixes `cause` with `context`, separated by a colon and a space.
pub fn explain(context: &str, cause: &str) -> (message: String)
    ensures
        message@ == with_context(context@, cause@),
{
    let mut message = String::from_str(context);
    proof {
        reveal_strlit(": ");
    }
    message.append(": ");
    message.append(cause);
    assert(": "@ =~= cause_separator());
    message
}

} // verus!
