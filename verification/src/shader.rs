//! Outcome rules for building the shader pipeline: how the context's
//! answers to shader creation, compilation and program linking are turned
//! into results or error messages.
use vstd::prelude::*;

verus! {

/// Message reported when the context hands back no shader object at all.
pub open spec fn no_shader_object_msg() -> Seq<char> {
    "Unable to create shader object"@
}

/// Fallback message when a failed compile left no info log behind.
pub open spec fn unknown_compile_error_msg() -> Seq<char> {
    "Unknown error creating shader"@
}

/// Fallback message when a failed link left no info log behind.
pub open spec fn unknown_link_error_msg() -> Seq<char> {
    "Unknown error linking program"@
}

/// A status answer counts as success exactly when it is a `true` boolean;
/// `false`, or an answer that was no boolean at all, is failure.
pub open spec fn status_ok(status: Option<bool>) -> bool {
    status == Some(true)
}

/// The message a failed build step reports: the context's info log when it
/// kept one, else the step's fallback message.
pub open spec fn failure_message(info_log: Option<String>, fallback: Seq<char>) -> Seq<char> {
    match info_log {
        Some(log) => log@,
        None => fallback,
    }
}

/// Turns the context's answer to a shader-allocation request into a result:
/// a missing object becomes the fixed error message.
pub fn shader_object_outcome<T>(object: Option<T>) -> (r: Result<T, String>)
    ensures
        r is Ok <==> object is Some,
        r is Ok ==> r->Ok_0 == object->0,
        r is Err ==> r->Err_0@ == no_shader_object_msg(),
{
    match object {
        Some(s) => Ok(s),
        None => Err("Unable to create shader object".to_owned()),
    }
}

fn status_outcome(status: Option<bool>, info_log: Option<String>, fallback: &str) -> (r: Result<
    (),
    String,
>)
    ensures
        r is Ok <==> status_ok(status),
        r is Err ==> r->Err_0@ == failure_message(info_log, fallback@),
{
    match status {
        Some(true) => Ok(()),
        _ => match info_log {
            Some(log) => Err(log),
            None => Err(fallback.to_owned()),
        },
    }
}

/// Judges a shader's compile status: success only on a `true` status answer,
/// and otherwise the info log, or a fixed message when there is none.
pub fn compile_outcome(status: Option<bool>, info_log: Option<String>) -> (r: Result<(), String>)
    ensures
        r is Ok <==> status_ok(status),
        r is Err ==> r->Err_0@ == failure_message(info_log, unknown_compile_error_msg()),
{
    status_outcome(status, info_log, "Unknown error creating shader")
}

/// Judges a program's link status: success only on a `true` status answer,
/// and otherwise the info log, or a fixed message when there is none.
pub fn link_outcome(status: Option<bool>, info_log: Option<String>) -> (r: Result<(), String>)
    ensures
        r is Ok <==> status_ok(status),
        r is Err ==> r->Err_0@ == failure_message(info_log, unknown_link_error_msg()),
{
    status_outcome(status, info_log, "Unknown error linking program")
}

} // verus!
