//! Invocation, cancellation and completion messages.
use vstd::prelude::*;

use crate::message_type::{ExactMessageType, CANCEL_INVOCATION, COMPLETION, INVOCATION};

verus! {

/// A call of a hub method, by the client or by the server.
#[derive(Debug)]
pub struct Invocation<T> {
    /// Message type, always `MessageTypeEnum::Invocation` here
    pub message_type: ExactMessageType<INVOCATION>,
    /// ID used for blocking invocations to backreference the callee
    pub invocation_id: Option<String>,
    /// Target function to be called
    pub target: String,
    /// Function call arguments
    pub arguments: T,
    /// Unique stream IDs consumed by the target
    pub stream_ids: Vec<String>,
}

impl<T> Invocation<T> {
    /// Creates an invocation of `target` with `arguments` and no stream IDs.
    pub fn new(invocation_id: Option<String>, target: String, arguments: T) -> (r: Self)
        ensures
            r.invocation_id == invocation_id,
            r.target == target,
            r.arguments == arguments,
            r.stream_ids@ == Seq::<String>::empty(),
    {
        Invocation {
            message_type: ExactMessageType,
            invocation_id,
            target,
            arguments,
            stream_ids: Vec::new(),
        }
    }
}

/// Asks the server to cancel the invocation with the given ID.
#[derive(Debug, Clone, PartialEq)]
pub struct CancelInvocation {
    /// Message type, always `MessageTypeEnum::CancelInvocation` here
    pub message_type: ExactMessageType<CANCEL_INVOCATION>,
    /// ID used to backreference the callee
    pub invocation_id: String,
}

impl CancelInvocation {
    /// Creates a cancellation of the invocation `invocation_id`.
    pub fn new(invocation_id: String) -> (r: Self)
        ensures
            r.invocation_id == invocation_id,
    {
        CancelInvocation { message_type: ExactMessageType, invocation_id }
    }
}

/// The outcome a completion reports: a value, or an error message.
#[derive(Debug, Clone, PartialEq)]
pub enum CompletionResult<T> {
    Result(T),
    Error(String),
}

/// The outcome a completion frame reports, from its `result` and `error`
/// entries: the error where there is one (the result is then ignored), else
/// the result, else none, as of a void method.
pub fn completion_result<T>(result: Option<T>, error: Option<String>) -> (r: Option<
    CompletionResult<T>,
>)
    ensures
        error matches Some(e) ==> r == Some(CompletionResult::<T>::Error(e)),
        error is None ==> r == match result {
            Some(v) => Some(CompletionResult::<T>::Result(v)),
            None => None::<CompletionResult<T>>,
        },
{
    match error {
        Some(e) => Some(CompletionResult::Error(e)),
        None => match result {
            Some(v) => Some(CompletionResult::Result(v)),
            None => None,
        },
    }
}

/// Indicates completion of an invocation. May report an error.
///
/// This message type is absent for `void` methods
#[derive(Debug, Clone, PartialEq)]
pub struct Completion<T> {
    /// Message type, always `MessageTypeEnum::Completion` here
    pub message_type: ExactMessageType<COMPLETION>,
    /// ID used for blocking invocations to backreference the callee
    pub invocation_id: String,
    /// Outcome; none for void methods
    pub result: Option<CompletionResult<T>>,
}

impl<T> Completion<T> {
    /// A completion that returns `result`.
    pub fn new(invocation_id: String, result: T) -> (r: Self)
        ensures
            r.invocation_id == invocation_id,
            r.result == Some(CompletionResult::Result(result)),
    {
        Completion {
            message_type: ExactMessageType,
            invocation_id,
            result: Some(CompletionResult::Result(result)),
        }
    }

    /// A completion without a return value, as of a void method.
    pub fn new_void(invocation_id: String) -> (r: Self)
        ensures
            r.invocation_id == invocation_id,
            r.result == None::<CompletionResult<T>>,
    {
        Completion { message_type: ExactMessageType, invocation_id, result: None }
    }

    /// A failed completion with the error message `reason`.
    pub fn error(invocation_id: String, reason: String) -> (r: Self)
        ensures
            r.invocation_id == invocation_id,
            r.result == Some(CompletionResult::<T>::Error(reason)),
    {
        Completion {
            message_type: ExactMessageType,
            invocation_id,
            result: Some(CompletionResult::Error(reason)),
        }
    }
}

} // verus!
