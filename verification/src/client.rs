//! The decisions of a hub client on the messages it receives.
use vstd::prelude::*;

use crate::invocation::{Completion, CompletionResult, Invocation};

verus! {

/// Holds when a completion answers the awaited invocation: one was awaited,
/// and the completion carries its ID.
pub open spec fn answers<T>(frame: Completion<T>, awaited: Option<String>) -> bool {
    awaited matches Some(id) && id@ == frame.invocation_id@
}

/// The error reported when the received completion does not answer the awaited invocation.
pub open spec fn unanswered_message() -> Seq<char> {
    "Failed to receive message"@
}

/// What awaiting the completion of `awaited` yields on receiving `frame`: the
/// returned value, the reported error, or the error that nothing answered.
pub fn completion_outcome<T>(frame: Completion<T>, awaited: Option<String>) -> (r: Result<T, String>)
    requires
        answers(frame, awaited) ==> frame.result is Some,
    ensures
        answers(frame, awaited) ==> match frame.result {
            Some(CompletionResult::Result(v)) => r == Ok::<T, String>(v),
            Some(CompletionResult::Error(e)) => r == Err::<T, String>(e),
            None => false,
        },
        !answers(frame, awaited) ==> (r matches Err(m) && m@ == unanswered_message()),
        awaited is None ==> (r matches Err(m) && m@ == "Failed to receive message"@),
        (awaited matches Some(id) && id@ != frame.invocation_id@) ==> (r matches Err(m) && m@
            == "Failed to receive message"@),
        r is Ok ==> (awaited matches Some(id) && id@ == frame.invocation_id@),
{
    let answered = match &awaited {
        Some(id) => *id == frame.invocation_id,
        None => false,
    };
    if answered {
        match frame.result.unwrap() {
            CompletionResult::Result(v) => Ok(v),
            CompletionResult::Error(e) => Err(e),
        }
    } else {
        Err("Failed to receive message".to_owned())
    }
}

/// A completion answers only the invocation it names: with nothing awaited,
/// or with another ID awaited, it answers nothing, and the awaiting fails
/// with "Failed to receive message".
pub proof fn lemma_answers_only_awaited_id<T>(frame: Completion<T>, awaited: Option<String>)
    ensures
        awaited is None ==> !answers(frame, awaited),
        answers(frame, awaited) <==> (awaited matches Some(id) && id@ == frame.invocation_id@),
        unanswered_message() == "Failed to receive message"@,
{
}

/// Holds when a server invocation calls the awaited target.
pub fn invocation_matches<T>(frame: &Invocation<T>, target: &str) -> (r: bool)
    ensures
        r == (target@ == frame.target@),
{
    let wanted = target.to_owned();
    wanted == frame.target
}

} // verus!
