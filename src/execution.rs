//! Judging the outcome of one run of the bridge tool and decoding its output.
use vstd::prelude::*;
use vstd::string::*;
use vstd::utf8::*;
use crate::commands::{AdbCommand, description_of};
use crate::error::AppError;
use crate::text::{trim, trim_text};

verus! {

/// What one run of the bridge tool left behind: whether it exited with
/// success, and the bytes of its standard output and standard error.
pub struct ExecutionResult {
    pub success: bool,
    pub stdout: Vec<u8>,
    pub stderr: Vec<u8>,
}

/// The text that lossy UTF-8 decoding gives for `b`.
pub uninterp spec fn lossy_utf8(b: Seq<u8>) -> Seq<char>;

/// Relies on `String::from_utf8_lossy`: valid UTF-8 is decoded as it is, and
/// the result depends on the bytes alone.
#[verifier::external_body]
pub(crate) fn lossy_text(b: &Vec<u8>) -> (r: String)
    ensures
        r@ == lossy_utf8(b@),
        valid_utf8(b@) ==> r@ == decode_utf8(b@),
{
    String::from_utf8_lossy(b).into_owned()
}

/// The message of the error that strict UTF-8 decoding gives for `b`.
pub uninterp spec fn utf8_error_text(b: Seq<u8>) -> Seq<char>;

/// Relies on `String::from_utf8`: it succeeds exactly on valid UTF-8 and then
/// holds the decoded characters; the error is carried as its message, which
/// depends on the bytes alone.
#[verifier::external_body]
fn strict_text(b: Vec<u8>) -> (r: Result<String, String>)
    ensures
        r is Ok <==> valid_utf8(b@),
        r is Ok ==> r->Ok_0@ == decode_utf8(b@),
        r is Err ==> r->Err_0@ == utf8_error_text(b@),
{
    match String::from_utf8(b) {
        Ok(s) => Ok(s),
        Err(e) => Err(e.to_string()),
    }
}

/// The decoded, trimmed text of a successful run's standard output.
pub open spec fn decoded_text(stdout: Seq<u8>) -> Seq<char> {
    trim(decode_utf8(stdout))
}

/// `e` reports that the command described by `desc` failed because of `reason`.
pub open spec fn is_command_failure(e: AppError, desc: Seq<char>, reason: Seq<char>) -> bool {
    e matches AppError::AdbCommandFailed { command, reason: why } && command@ == desc
        && why@ == reason
}

/// `e` reports that the command described by `desc` could not be started
/// because of `reason`.
pub open spec fn is_spawn_failure(e: AppError, desc: Seq<char>, reason: Seq<char>) -> bool {
    e matches AppError::AdbSpawnFailed { command, reason: why } && command@ == desc
        && why@ == reason
}

/// `e` reports that standard output was not UTF-8, with the decoder's message.
pub open spec fn is_encoding_failure(e: AppError, stdout: Seq<u8>) -> bool {
    e matches AppError::Utf8Error { reason } && reason@ == utf8_error_text(stdout)
}

/// Judges the outcome of running `command`: `outcome` is the result of the
/// run, or the message of the error that kept the tool from starting.
pub fn execute_adb_command(command: AdbCommand, outcome: Result<ExecutionResult, String>) -> (r:
    Result<ExecutionResult, AppError>)
    ensures
        outcome is Err ==> r is Err && is_spawn_failure(
            r->Err_0,
            description_of(command),
            outcome->Err_0@,
        ),
        outcome is Ok && !outcome->Ok_0.success ==> r is Err && is_command_failure(
            r->Err_0,
            description_of(command),
            lossy_utf8(outcome->Ok_0.stderr@),
        ),
        outcome is Ok && outcome->Ok_0.success ==> r is Ok && r->Ok_0 == outcome->Ok_0,
{
    match outcome {
        Err(spawn_error) => Err(
            AppError::AdbSpawnFailed { command: command.description(), reason: spawn_error },
        ),
        Ok(output) => {
            if !output.success {
                let stderr = lossy_text(&output.stderr);
                Err(AppError::adb_command_failed(&command.description(), stderr))
            } else {
                Ok(output)
            }
        },
    }
}

/// Judges the outcome of running `command` and decodes its standard output
/// strictly as UTF-8, trimmed of surrounding whitespace.
pub fn execute_adb_command_string(command: AdbCommand, outcome: Result<ExecutionResult, String>) -> (r:
    Result<String, AppError>)
    ensures
        outcome is Err ==> r is Err && is_spawn_failure(
            r->Err_0,
            description_of(command),
            outcome->Err_0@,
        ),
        outcome is Ok && !outcome->Ok_0.success ==> r is Err && is_command_failure(
            r->Err_0,
            description_of(command),
            lossy_utf8(outcome->Ok_0.stderr@),
        ),
        outcome is Ok && outcome->Ok_0.success ==> (r is Ok <==> valid_utf8(
            outcome->Ok_0.stdout@,
        )),
        outcome is Ok && outcome->Ok_0.success && valid_utf8(outcome->Ok_0.stdout@) ==> r->Ok_0@
            == decoded_text(outcome->Ok_0.stdout@),
        outcome is Ok && outcome->Ok_0.success && !valid_utf8(outcome->Ok_0.stdout@) ==> r is Err
            && is_encoding_failure(r->Err_0, outcome->Ok_0.stdout@),
{
    let output = execute_adb_command(command, outcome)?;
    match strict_text(output.stdout) {
        Ok(text) => Ok(trim_text(text.as_str())),
        Err(reason) => Err(AppError::Utf8Error { reason }),
    }
}

} // verus!
