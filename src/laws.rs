//! Properties that relate several operations: rendering, and what reading the
//! proxy setting gives after writing or clearing it.
use vstd::prelude::*;
use vstd::utf8::*;
use crate::commands::{AdbCommand, args_of, description_of, put_proxy_args};
use crate::execution::{ExecutionResult, decoded_text};
use crate::manager::read_succeeds;
use crate::proxy::is_unset;
use crate::text::{is_ws, trim, trim_end, trim_start};

verus! {

broadcast use vstd::utf8::group_utf8_lib;

/// `a` and `b` are the same operation with the same payload.
pub open spec fn same_command(a: AdbCommand, b: AdbCommand) -> bool {
    match (a, b) {
        (AdbCommand::GetProxy, AdbCommand::GetProxy) => true,
        (AdbCommand::SetProxy(x), AdbCommand::SetProxy(y)) => x@ == y@,
        (AdbCommand::ClearProxy, AdbCommand::ClearProxy) => true,
        (AdbCommand::GetDevices, AdbCommand::GetDevices) => true,
        _ => false,
    }
}

/// The proxy setting that a device holds after the bridge tool ran with
/// `args`: a write of the global proxy replaces it, anything else keeps it.
pub open spec fn setting_after(setting: Seq<char>, args: Seq<Seq<char>>) -> Seq<char> {
    if args.len() == 6 && args == put_proxy_args(args[5]) {
        args[5]
    } else {
        setting
    }
}

/// The standard output with which a device that holds `setting` answers a
/// read of the proxy setting: the value and a newline, in UTF-8.
pub open spec fn read_reply(setting: Seq<char>) -> Seq<u8> {
    encode_utf8(setting.push('\n'))
}

/// Rendering is a function of the operation and its payload alone: the same
/// operation always gives the same argument vector and description.
pub proof fn lemma_render_deterministic(a: AdbCommand, b: AdbCommand)
    requires
        same_command(a, b),
    ensures
        args_of(a) == args_of(b),
        description_of(a) == description_of(b),
{
}

/// The argument vector of a proxy write ends with the value itself, as given.
pub proof fn lemma_write_ends_with_value(proxy: String)
    ensures
        args_of(AdbCommand::SetProxy(proxy)).len() == 6,
        args_of(AdbCommand::SetProxy(proxy)).last() == proxy@,
{
}

/// Clearing the proxy sends the same arguments as writing the value `:0`.
pub proof fn lemma_clear_is_write_of_unset(proxy: String)
    requires
        proxy@ == ":0"@,
    ensures
        args_of(AdbCommand::ClearProxy) == args_of(AdbCommand::SetProxy(proxy)),
{
}

proof fn lemma_trim_start_len(s: Seq<char>)
    ensures
        trim_start(s).len() <= s.len(),
        trim_start(s).len() == s.len() ==> trim_start(s) == s,
    decreases s.len(),
{
    if s.len() > 0 && is_ws(s[0]) {
        lemma_trim_start_len(s.drop_first());
    }
}

proof fn lemma_trim_end_len(s: Seq<char>)
    ensures
        trim_end(s).len() <= s.len(),
        trim_end(s).len() == s.len() ==> trim_end(s) == s,
    decreases s.len(),
{
    if s.len() > 0 && is_ws(s.last()) {
        lemma_trim_end_len(s.drop_last());
    }
}

/// A value without surrounding whitespace is read back, newline and all, as
/// itself.
proof fn lemma_trim_line(v: Seq<char>)
    requires
        trim(v) == v,
    ensures
        trim(v.push('\n')) == v,
{
    lemma_trim_start_len(v);
    lemma_trim_end_len(trim_start(v));
    lemma_trim_end_len(v);
    let w = v.push('\n');
    assert(w.drop_last() =~= v);
    assert(is_ws('\n'));
    if v.len() == 0 {
        assert(w.drop_first() =~= Seq::<char>::empty());
        assert(trim_start(w) == trim_start(Seq::<char>::empty()));
    } else {
        assert(trim_start(v) == v);
        lemma_trim_start_len(v.drop_first());
        assert(!is_ws(v[0]));
        assert(w[0] == v[0]);
        assert(trim_start(w) == w);
    }
    assert(trim_end(w) == trim_end(v));
}

/// Writing a proxy value and then reading the setting back gives the value
/// written, when it has no surrounding whitespace.
pub proof fn lemma_write_then_read(setting: Seq<char>, proxy: String)
    requires
        trim(proxy@) == proxy@,
    ensures
        decoded_text(read_reply(setting_after(setting, args_of(AdbCommand::SetProxy(proxy)))))
            == proxy@,
{
    let v = proxy@;
    assert(setting_after(setting, args_of(AdbCommand::SetProxy(proxy))) == v);
    assert(decode_utf8(encode_utf8(v.push('\n'))) == v.push('\n'));
    lemma_trim_line(v);
}

/// After clearing the proxy, once or twice, reading it back gives a value
/// that means no proxy is set.
pub proof fn lemma_clear_twice_reads_unset(setting: Seq<char>)
    ensures
        is_unset(decoded_text(read_reply(setting_after(setting, args_of(AdbCommand::ClearProxy))))),
        is_unset(
            decoded_text(
                read_reply(
                    setting_after(
                        setting_after(setting, args_of(AdbCommand::ClearProxy)),
                        args_of(AdbCommand::ClearProxy),
                    ),
                ),
            ),
        ),
{
    reveal_strlit(":0");
    let v = ":0"@;
    let once = setting_after(setting, args_of(AdbCommand::ClearProxy));
    assert(once == v);
    assert(setting_after(once, args_of(AdbCommand::ClearProxy)) == v);
    assert(trim_start(v) == v);
    assert(v.last() == '0');
    assert(trim_end(v) == v);
    assert(decode_utf8(encode_utf8(v.push('\n'))) == v.push('\n'));
    lemma_trim_line(v);
}

/// In the set-proxy workflow, the read that follows a successful write of a
/// value without surrounding whitespace succeeds and gives that value, so the
/// workflow ends confirming it.
pub proof fn lemma_set_workflow_confirms(setting: Seq<char>, proxy: String, reply: ExecutionResult)
    requires
        trim(proxy@) == proxy@,
        reply.success,
        reply.stdout@ == read_reply(setting_after(setting, args_of(AdbCommand::SetProxy(proxy)))),
    ensures
        read_succeeds(Ok::<ExecutionResult, String>(reply)),
        decoded_text(reply.stdout@) == proxy@,
{
    lemma_write_then_read(setting, proxy);
}

/// In the clear-proxy workflow, run once or twice in a row, the read that
/// follows a successful clearing succeeds and gives a value that means no
/// proxy is set, so each run ends confirming it.
pub proof fn lemma_clear_workflow_confirms(
    setting: Seq<char>,
    first: ExecutionResult,
    second: ExecutionResult,
)
    requires
        first.success,
        first.stdout@ == read_reply(setting_after(setting, args_of(AdbCommand::ClearProxy))),
        second.success,
        second.stdout@ == read_reply(
            setting_after(
                setting_after(setting, args_of(AdbCommand::ClearProxy)),
                args_of(AdbCommand::ClearProxy),
            ),
        ),
    ensures
        read_succeeds(Ok::<ExecutionResult, String>(first)),
        is_unset(decoded_text(first.stdout@)),
        read_succeeds(Ok::<ExecutionResult, String>(second)),
        is_unset(decoded_text(second.stdout@)),
{
    lemma_clear_twice_reads_unset(setting);
}

} // verus!
