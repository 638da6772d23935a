//! The decisions of the proxy workflows: reading the setting, clearing it,
//! checking what was read back, and the text that reports it.
use vstd::prelude::*;
use vstd::string::*;
use vstd::utf8::*;
use crate::commands::{AdbCommand, description_of};
use crate::error::AppError;
use crate::execution::{
    ExecutionResult, decoded_text, execute_adb_command, execute_adb_command_string,
    utf8_error_text,
};
use crate::proxy::{is_proxy_unset, is_unset, split_proxy};
use crate::text::{
    contains, contains_text, lines, second_field, second_field_text, split_lines, split_once,
};

verus! {


/// The read operation ran, exited with success and printed UTF-8.
pub open spec fn read_succeeds(outcome: Result<ExecutionResult, String>) -> bool {
    outcome is Ok && outcome->Ok_0.success && valid_utf8(outcome->Ok_0.stdout@)
}

/// The reason reported when the read operation did not succeed.
pub open spec fn read_failure_reason(outcome: Result<ExecutionResult, String>) -> Seq<char> {
    if outcome is Err {
        "Failed to start ADB command: "@ + description_of(AdbCommand::GetProxy)
    } else if !outcome->Ok_0.success {
        "ADB command failed: "@ + description_of(AdbCommand::GetProxy)
    } else {
        "UTF-8 conversion error: "@ + utf8_error_text(outcome->Ok_0.stdout@)
    }
}

/// Reads the proxy setting from the outcome of the read operation. Every
/// failure is reported as `ProxyGetFailed`, with the text of the error.
pub fn read_proxy_setting(outcome: Result<ExecutionResult, String>) -> (r: Result<String, AppError>)
    ensures
        r is Ok <==> read_succeeds(outcome),
        r is Ok ==> r->Ok_0@ == decoded_text(outcome->Ok_0.stdout@),
        r is Err ==> (r->Err_0 matches AppError::ProxyGetFailed { reason } && reason@
            == read_failure_reason(outcome)),
{
    match execute_adb_command_string(AdbCommand::GetProxy, outcome) {
        Ok(value) => Ok(value),
        Err(e) => Err(AppError::proxy_get_failed(e.message())),
    }
}

/// Judges the outcome of the clear operation. A failure is reported as
/// `ProxyClearFailed`, with the text of the error.
pub fn clear_proxy_internal(outcome: Result<ExecutionResult, String>) -> (r: Result<(), AppError>)
    ensures
        r is Ok <==> (outcome is Ok && outcome->Ok_0.success),
        outcome is Err ==> (r->Err_0 matches AppError::ProxyClearFailed { reason } && reason@
            == "Failed to start ADB command: "@ + description_of(AdbCommand::ClearProxy)),
        outcome is Ok && !outcome->Ok_0.success ==> (r->Err_0 matches AppError::ProxyClearFailed {
            reason,
        } && reason@ == "ADB command failed: "@ + description_of(AdbCommand::ClearProxy)),
{
    match execute_adb_command(AdbCommand::ClearProxy, outcome) {
        Ok(_) => Ok(()),
        Err(e) => Err(AppError::proxy_clear_failed(e.message())),
    }
}

/// Whether the value read back after a write is the value written.
pub fn verify_proxy_settings(expected_proxy: &str, current_proxy: &str) -> (r: bool)
    ensures
        r == (current_proxy@ == expected_proxy@),
{
    let n = expected_proxy.unicode_len();
    if current_proxy.unicode_len() != n {
        return false;
    }
    let mut i: usize = 0;
    while i < n
        invariant
            i <= n,
            n == expected_proxy@.len(),
            n == current_proxy@.len(),
            forall|k: int| 0 <= k < i ==> current_proxy@[k] == expected_proxy@[k],
        decreases n - i,
    {
        if current_proxy.get_char(i) != expected_proxy.get_char(i) {
            return false;
        }
        i = i + 1;
    }
    assert(current_proxy@ =~= expected_proxy@);
    true
}

/// Whether the value read back after clearing means that no proxy is set.
pub fn verify_proxy_cleared(current_proxy: &str) -> (r: bool)
    ensures
        r == is_unset(current_proxy@),
{
    is_proxy_unset(current_proxy)
}

/// The report on a proxy setting read from the device.
pub open spec fn proxy_info(setting: Seq<char>) -> Seq<char> {
    "Current Proxy Settings:\n"@ + if is_unset(setting) {
        "Global HTTP Proxy: Not set"@
    } else {
        match split_once(setting, ':') {
            Some((ip, port)) => "Global HTTP Proxy: "@ + setting + "\nIP Address: "@ + ip
                + "\nPort: "@ + port,
            None => "Global HTTP Proxy: "@ + setting
                + "\n(Unable to parse IP and port separately)"@,
        }
    }
}

/// The report on the proxy setting `proxy_setting` read from the device.
pub fn get_proxy_info(proxy_setting: &str) -> (r: String)
    ensures
        r@ == proxy_info(proxy_setting@),
{
    let mut info = String::from_str("Current Proxy Settings:\n");
    if is_proxy_unset(proxy_setting) {
        info.append("Global HTTP Proxy: Not set");
    } else {
        info.append("Global HTTP Proxy: ");
        info.append(proxy_setting);
        match split_proxy(proxy_setting) {
            Some((ip, port)) => {
                info.append("\nIP Address: ");
                info.append(ip.as_str());
                info.append("\nPort: ");
                info.append(port.as_str());
            },
            None => {
                info.append("\n(Unable to parse IP and port separately)");
            },
        }
    }
    assert(info@ =~= proxy_info(proxy_setting@));
    info
}

/// The first of `ls` in which `pat` occurs, if any.
pub open spec fn first_line_with(ls: Seq<Seq<char>>, pat: Seq<char>) -> Option<Seq<char>>
    decreases ls.len(),
{
    if ls.len() == 0 {
        None
    } else if contains(ls[0], pat) {
        Some(ls[0])
    } else {
        first_line_with(ls.drop_first(), pat)
    }
}

/// The proxy value that a report names: empty when it says the proxy is not
/// set, else what follows `": "` on its first line about the global proxy.
pub open spec fn setting_in_info(info: Seq<char>) -> Seq<char> {
    if contains(info, "Not set"@) {
        Seq::empty()
    } else {
        match first_line_with(lines(info), "Global HTTP Proxy"@) {
            Some(l) => second_field(l, ": "@),
            None => Seq::empty(),
        }
    }
}

/// The current proxy value, taken back out of a report (see
/// `get_proxy_info`); empty when the report could not be had.
pub fn get_current_proxy_setting(info: Result<String, AppError>) -> (r: String)
    ensures
        info is Err ==> r@.len() == 0,
        info is Ok ==> r@ == setting_in_info(info->Ok_0@),
{
    let text = match info {
        Ok(text) => text,
        Err(_) => {
            return String::new();
        },
    };
    if contains_text(text.as_str(), "Not set") {
        return String::new();
    }
    let all = split_lines(text.as_str());
    let ghost ls = lines(text@);
    let mut i: usize = 0;
    assert(ls.subrange(0, ls.len() as int) =~= ls);
    while i < all.len()
        invariant
            i <= all@.len(),
            info is Ok && info->Ok_0@ == text@,
            ls == lines(text@),
            !contains(text@, "Not set"@),
            all@.len() == ls.len(),
            forall|k: int| 0 <= k < all@.len() ==> #[trigger] all@[k]@ == ls[k],
            first_line_with(ls, "Global HTTP Proxy"@) == first_line_with(
                ls.subrange(i as int, ls.len() as int),
                "Global HTTP Proxy"@,
            ),
        decreases all@.len() - i,
    {
        let ghost tail = ls.subrange(i as int, ls.len() as int);
        assert(tail[0] == all@[i as int]@);
        if contains_text(all[i].as_str(), "Global HTTP Proxy") {
            assert(first_line_with(tail, "Global HTTP Proxy"@) == Some(tail[0]));
            return second_field_text(all[i].as_str(), ": ");
        }
        assert(tail.drop_first() =~= ls.subrange(i + 1, ls.len() as int));
        i = i + 1;
    }
    String::new()
}

} // verus!
