//! The operations sent to the bridge tool: their argument vectors and their
//! descriptions.
use vstd::prelude::*;
use vstd::string::*;

verus! {

/// The operations that the bridge tool is asked to perform.
#[derive(Debug, Clone)]
pub enum AdbCommand {
    GetProxy,
    SetProxy(String),
    ClearProxy,
    GetDevices,
}

/// The character views of a sequence of strings.
pub open spec fn views(v: Seq<String>) -> Seq<Seq<char>> {
    v.map_values(|s: String| s@)
}

/// The arguments that write `value` as the global proxy setting.
pub open spec fn put_proxy_args(value: Seq<char>) -> Seq<Seq<char>> {
    seq!["shell"@, "settings"@, "put"@, "global"@, "http_proxy"@, value]
}

/// The argument vector of an operation.
pub open spec fn args_of(c: AdbCommand) -> Seq<Seq<char>> {
    match c {
        AdbCommand::GetProxy => seq!["shell"@, "settings"@, "get"@, "global"@, "http_proxy"@],
        AdbCommand::SetProxy(v) => put_proxy_args(v@),
        AdbCommand::ClearProxy => put_proxy_args(":0"@),
        AdbCommand::GetDevices => seq!["devices"@],
    }
}

/// The description of an operation used in error messages.
pub open spec fn description_of(c: AdbCommand) -> Seq<char> {
    match c {
        AdbCommand::GetProxy => "get proxy settings"@,
        AdbCommand::SetProxy(v) => "set proxy to "@ + v@,
        AdbCommand::ClearProxy => "clear proxy settings"@,
        AdbCommand::GetDevices => "get connected devices"@,
    }
}

fn put_proxy_vec(value: String) -> (r: Vec<String>)
    ensures
        views(r@) == put_proxy_args(value@),
{
    let r = vec![
        String::from_str("shell"),
        String::from_str("settings"),
        String::from_str("put"),
        String::from_str("global"),
        String::from_str("http_proxy"),
        value,
    ];
    assert(views(r@) =~= put_proxy_args(value@));
    r
}

impl AdbCommand {
    /// The argument vector that the bridge tool is run with.
    pub fn to_args(&self) -> (r: Vec<String>)
        ensures
            views(r@) == args_of(*self),
    {
        match self {
            AdbCommand::GetProxy => {
                let r = vec![
                    String::from_str("shell"),
                    String::from_str("settings"),
                    String::from_str("get"),
                    String::from_str("global"),
                    String::from_str("http_proxy"),
                ];
                assert(views(r@) =~= args_of(*self));
                r
            },
            AdbCommand::SetProxy(proxy) => put_proxy_vec(proxy.clone()),
            AdbCommand::ClearProxy => put_proxy_vec(String::from_str(":0")),
            AdbCommand::GetDevices => {
                let r = vec![String::from_str("devices")];
                assert(views(r@) =~= args_of(*self));
                r
            },
        }
    }

    /// A short phrase naming the operation, for error messages.
    pub fn description(&self) -> (r: String)
        ensures
            r@ == description_of(*self),
    {
        match self {
            AdbCommand::GetProxy => String::from_str("get proxy settings"),
            AdbCommand::SetProxy(proxy) => {
                let mut d = String::from_str("set proxy to ");
                d.append(proxy.as_str());
                d
            },
            AdbCommand::ClearProxy => String::from_str("clear proxy settings"),
            AdbCommand::GetDevices => String::from_str("get connected devices"),
        }
    }
}

} // verus!
