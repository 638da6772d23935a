//! Probing the bridge tool and reading the list of attached devices.
use vstd::prelude::*;
use vstd::string::*;
use vstd::utf8::*;
use crate::commands::{AdbCommand, description_of};
use crate::error::AppError;
use crate::execution::{
    ExecutionResult, decoded_text, execute_adb_command_string, is_command_failure,
    is_encoding_failure, is_spawn_failure, lossy_utf8,
    lossy_text,
};
use crate::text::{
    before_char, contains, contains_text, is_u32_numeral, lines, parse_u32, split_lines, split_words,
    text_before_tab, trim, trim_text, words,
};

verus! {

/// The header line that the bridge tool puts before its device list.
pub open spec fn header() -> Seq<char> {
    "List of devices attached"@
}

/// The device identifier that one line of the listing names, if any.
pub open spec fn device_of(line: Seq<char>) -> Option<Seq<char>> {
    if trim(line).len() == 0 || contains(line, header()) {
        None
    } else {
        let id = trim(before_char(line, '\t'));
        if id.len() == 0 {
            None
        } else {
            Some(id)
        }
    }
}

/// The identifiers named by a sequence of listing lines, in order.
pub open spec fn device_ids(ls: Seq<Seq<char>>) -> Seq<Seq<char>>
    decreases ls.len(),
{
    if ls.len() == 0 {
        Seq::empty()
    } else {
        let front = device_ids(ls.drop_last());
        match device_of(ls.last()) {
            Some(id) => front.push(id),
            None => front,
        }
    }
}

/// The identifiers named by a device listing; its first line is the header.
pub open spec fn devices_in(text: Seq<char>) -> Seq<Seq<char>> {
    let ls = lines(text);
    if ls.len() == 0 {
        Seq::empty()
    } else {
        device_ids(ls.drop_first())
    }
}

fn device_of_line(line: &str) -> (r: Option<String>)
    ensures
        r is None <==> device_of(line@) is None,
        r is Some ==> r->Some_0@ == device_of(line@)->Some_0,
{
    let trimmed = trim_text(line);
    if trimmed.unicode_len() == 0 || contains_text(line, "List of devices attached") {
        return None;
    }
    let id = trim_text(text_before_tab(line).as_str());
    if id.unicode_len() == 0 {
        None
    } else {
        Some(id)
    }
}

/// Reads the identifiers out of the text of a device listing. Fails with
/// `NoDevicesConnected` when it names none.
pub fn parse_device_list(text: &str) -> (r: Result<Vec<String>, AppError>)
    ensures
        r is Ok <==> devices_in(text@).len() > 0,
        r is Ok ==> r->Ok_0@.map_values(|s: String| s@) == devices_in(text@),
        r is Err ==> r->Err_0 is NoDevicesConnected,
{
    let all = split_lines(text);
    let ghost ls = lines(text@);
    let mut ids: Vec<String> = Vec::new();
    let mut i: usize = 1;
    if all.len() > 0 {
        assert(ls.drop_first().subrange(0, 0) =~= Seq::<Seq<char>>::empty());
        while i < all.len()
            invariant
                1 <= i <= all@.len(),
                all@.len() == ls.len(),
                forall|k: int| 0 <= k < all@.len() ==> #[trigger] all@[k]@ == ls[k],
                ids@.map_values(|s: String| s@) == device_ids(ls.drop_first().subrange(0, i - 1)),
            decreases all@.len() - i,
        {
            let ghost prev = ls.drop_first().subrange(0, i - 1);
            let ghost next = ls.drop_first().subrange(0, i as int);
            assert(next.drop_last() =~= prev);
            assert(next.last() == all@[i as int]@);
            match device_of_line(all[i].as_str()) {
                Some(id) => {
                    ids.push(id);
                    assert(ids@.map_values(|s: String| s@) =~= device_ids(prev).push(
                        device_of(next.last())->Some_0,
                    ));
                },
                None => {},
            }
            i = i + 1;
        }
        assert(ls.drop_first().subrange(0, i - 1) =~= ls.drop_first());
    }
    if ids.len() == 0 {
        Err(AppError::NoDevicesConnected)
    } else {
        Ok(ids)
    }
}

/// Reads the connected devices from the outcome of running the device-list
/// operation (see `execute_adb_command`).
pub fn get_connected_devices(outcome: Result<ExecutionResult, String>) -> (r: Result<
    Vec<String>,
    AppError,
>)
    ensures
        outcome is Err ==> r is Err && is_spawn_failure(
            r->Err_0,
            description_of(AdbCommand::GetDevices),
            outcome->Err_0@,
        ),
        outcome is Ok && !outcome->Ok_0.success ==> r is Err && is_command_failure(
            r->Err_0,
            description_of(AdbCommand::GetDevices),
            lossy_utf8(outcome->Ok_0.stderr@),
        ),
        outcome is Ok && outcome->Ok_0.success && !valid_utf8(outcome->Ok_0.stdout@) ==> r is Err
            && is_encoding_failure(r->Err_0, outcome->Ok_0.stdout@),
        outcome is Ok && outcome->Ok_0.success && valid_utf8(outcome->Ok_0.stdout@) ==> {
            let ids = devices_in(decoded_text(outcome->Ok_0.stdout@));
            &&& r is Ok <==> ids.len() > 0
            &&& r is Ok ==> r->Ok_0@.map_values(|s: String| s@) == ids
            &&& r is Err ==> r->Err_0 is NoDevicesConnected
        },
{
    let text = execute_adb_command_string(AdbCommand::GetDevices, outcome)?;
    parse_device_list(text.as_str())
}

/// The first line of `text`, or `"Unknown"` if it has none.
pub open spec fn first_line_or_unknown(text: Seq<char>) -> Seq<char> {
    if lines(text).len() > 0 {
        lines(text)[0]
    } else {
        "Unknown"@
    }
}

/// The version text in the output of the version probe: its first line, or
/// `"Unknown"` if it has none.
pub fn version_line(text: &str) -> (r: String)
    ensures
        r@ == first_line_or_unknown(text@),
{
    let mut all = split_lines(text);
    if all.len() > 0 {
        all.swap_remove(0)
    } else {
        String::from_str("Unknown")
    }
}

/// Judges the outcome of the version probe. Any failure, to start or of the
/// tool itself, is `AdbNotFound`; otherwise the first line of the output is
/// the version text.
pub fn check_adb_availability(outcome: Result<ExecutionResult, String>) -> (r: Result<
    String,
    AppError,
>)
    ensures
        r is Ok <==> (outcome is Ok && outcome->Ok_0.success),
        r is Ok ==> r->Ok_0@ == first_line_or_unknown(lossy_utf8(outcome->Ok_0.stdout@)),
        r is Ok && valid_utf8(outcome->Ok_0.stdout@) ==> r->Ok_0@ == first_line_or_unknown(
            decode_utf8(outcome->Ok_0.stdout@),
        ),
        r is Err ==> r->Err_0 is AdbNotFound,
{
    match outcome {
        Err(_) => Err(AppError::AdbNotFound),
        Ok(output) => {
            if !output.success {
                return Err(AppError::AdbNotFound);
            }
            let text = lossy_text(&output.stdout);
            Ok(version_line(text.as_str()))
        },
    }
}

/// The cause reported when the restart script ran and failed.
pub open spec fn restart_script_failed() -> Seq<char> {
    "the restart script exited with failure"@
}

/// Judges the exit of the server restart script: `status` tells whether it
/// succeeded, or holds the message of the error that kept it from running.
/// Either failure is `RestartFailed`, with its cause.
pub fn restart_adb_server(status: Result<bool, String>) -> (r: Result<(), AppError>)
    ensures
        r is Ok <==> status == Ok::<bool, String>(true),
        status is Err ==> r is Err && (r->Err_0 matches AppError::RestartFailed { reason }
            && reason@ == status->Err_0@),
        status == Ok::<bool, String>(false) ==> r is Err && (r->Err_0 matches AppError::RestartFailed {
            reason,
        } && reason@ == restart_script_failed()),
{
    match status {
        Err(reason) => Err(AppError::RestartFailed { reason }),
        Ok(true) => Ok(()),
        Ok(false) => Err(
            AppError::RestartFailed {
                reason: String::from_str("the restart script exited with failure"),
            },
        ),
    }
}

/// Some word of `text` reads as a process id.
pub open spec fn names_process(text: Seq<char>) -> bool {
    exists|k: int| 0 <= k < words(text).len() && is_u32_numeral(#[trigger] words(text)[k])
}

/// Whether some whitespace-separated word of `text` reads as a process id.
pub fn lists_process(text: &str) -> (r: bool)
    ensures
        r == names_process(text@),
{
    let ws = split_words(text);
    let mut i: usize = 0;
    while i < ws.len()
        invariant
            i <= ws@.len(),
            ws@.len() == words(text@).len(),
            forall|k: int| 0 <= k < ws@.len() ==> #[trigger] ws@[k]@ == words(text@)[k],
            forall|k: int| 0 <= k < i ==> !is_u32_numeral(#[trigger] words(text@)[k]),
        decreases ws@.len() - i,
    {
        assert(ws@[i as int]@ == words(text@)[i as int]);
        if parse_u32(ws[i].as_str()).is_some() {
            return true;
        }
        i = i + 1;
    }
    false
}

/// Judges the outcome of the process-table query for the bridge server:
/// `outcome` is its standard output, or the message of the error that kept
/// it from running. Any failure counts as "not running".
pub fn is_adb_running(outcome: Result<Vec<u8>, String>) -> (r: bool)
    ensures
        r == (outcome is Ok && names_process(lossy_utf8(outcome->Ok_0@))),
        outcome is Ok && valid_utf8(outcome->Ok_0@) ==> r == names_process(
            decode_utf8(outcome->Ok_0@),
        ),
{
    match outcome {
        Ok(stdout) => {
            let text = lossy_text(&stdout);
            lists_process(text.as_str())
        },
        Err(_) => false,
    }
}

} // verus!
