//! Error texts of device calls.

use ash::vk;
use vstd::prelude::*;

verus! {

/// The text that ash's `Debug` gives for the result code `code`.
pub uninterp spec fn vk_result_debug(code: i32) -> Seq<char>;

/// `format!("{:?}", ash::vk::Result::from_raw(code))`: ash writes the name of a
/// result code that it knows and the number of one that it does not. Either way
/// the text depends on the code alone.
#[verifier::external_body]
pub(crate) fn vk_result_text(code: i32) -> (text: String)
    ensures
        text@ == vk_result_debug(code),
{
    format!("{:?}", vk::Result::from_raw(code))
}

/// The message for a call that returned the error `code`.
pub open spec fn call_failed_text(call: Seq<char>, code: i32) -> Seq<char> {
    call + " failed: "@ + vk_result_debug(code)
}

/// Builds the message for a call that returned the error `code`.
pub fn call_failed(call: &str, code: i32) -> (message: String)
    ensures
        message@ == call_failed_text(call@, code),
{
    let mut message: String = call.to_owned();
    message.append(" failed: ");
    let text: String = vk_result_text(code);
    message.append(text.as_str());
    message
}

/// The message for a call made on behalf of `subject` that returned the error
/// `code`.
pub open spec fn subject_failed_text(call: Seq<char>, subject: Seq<char>, code: i32) -> Seq<char> {
    call_failed_text(call + "("@ + subject + ")"@, code)
}

/// Builds the message for a call made on behalf of `subject`.
pub fn subject_failed(call: &str, subject: &str, code: i32) -> (message: String)
    ensures
        message@ == subject_failed_text(call@, subject@, code),
{
    let mut name: String = call.to_owned();
    name.append("(");
    name.append(subject);
    name.append(")");
    call_failed(name.as_str(), code)
}

/// A message names the call that failed, what it was for, and the result.
pub proof fn law_failures_name_call_and_result(call: Seq<char>, subject: Seq<char>, code: i32)
    ensures
        ({
            let plain = call_failed_text(call, code);
            let full = subject_failed_text(call, subject, code);
            let result = vk_result_debug(code);
            &&& plain.subrange(0, call.len() as int) == call
            &&& plain.subrange(plain.len() - result.len(), plain.len() as int) == result
            &&& plain.len() == call.len() + 9 + result.len()
            &&& full.subrange(0, call.len() as int) == call
            &&& full.subrange(call.len() as int + 1, call.len() as int + 1 + subject.len()) == subject
            &&& full.subrange(full.len() - result.len(), full.len() as int) == result
            &&& full.len() == call.len() + 2 + subject.len() + 9 + result.len()
        }),
{
    reveal_strlit(" failed: ");
    reveal_strlit("(");
    reveal_strlit(")");
    let plain = call_failed_text(call, code);
    let full = subject_failed_text(call, subject, code);
    let result = vk_result_debug(code);
    assert(plain.subrange(0, call.len() as int) =~= call);
    assert(plain.subrange(plain.len() - result.len(), plain.len() as int) =~= result);
    assert(full.subrange(0, call.len() as int) =~= call);
    assert(full.subrange(call.len() as int + 1, call.len() as int + 1 + subject.len()) =~= subject);
    assert(full.subrange(full.len() - result.len(), full.len() as int) =~= result);
}

} // verus!
