//! The proxy value: how it is built from an address and a port, how a value
//! read back from the device is classified and split, and how it is shown.
use vstd::prelude::*;
use vstd::string::*;
use crate::error::AppError;
use crate::text::{split_once, split_once_char};

verus! {

/// The address and port that the device is pointed at.
#[derive(Debug, Clone)]
pub struct ProxySettings {
    pub ip: String,
    pub port: u16,
}

/// The decimal digits of `n`, most significant first, without leading zeros.
pub open spec fn decimal(n: nat) -> Seq<char>
    decreases n,
{
    if n < 10 {
        seq!["0123456789"@[n as int]]
    } else {
        decimal(n / 10).push("0123456789"@[(n % 10) as int])
    }
}

/// The proxy value `ip:port`.
pub open spec fn proxy_string(ip: Seq<char>, port: u16) -> Seq<char> {
    ip + ":"@ + decimal(port as nat)
}

/// A value read back from the device that means no proxy is set.
pub open spec fn is_unset(value: Seq<char>) -> bool {
    value.len() == 0 || value == ":0"@
}

fn push_decimal(out: &mut String, n: u16)
    ensures
        final(out)@ == old(out)@ + decimal(n as nat),
    decreases n,
{
    if n >= 10 {
        push_decimal(out, n / 10);
    }
    let d = (n % 10) as usize;
    proof {
        reveal_strlit("0123456789");
    }
    let digit = "0123456789".substring_char(d, d + 1);
    out.append(digit);
    assert(digit@ =~= seq!["0123456789"@[d as int]]);
    assert(final(out)@ =~= old(out)@ + decimal(n as nat));
}

/// Relies on `local_ip_address::local_ip`: the address of this machine on
/// its local network, as text. What it returns depends on the machine.
#[verifier::external_body]
fn local_ip_text() -> (r: Result<String, String>) {
    match local_ip_address::local_ip() {
        Ok(ip) => Ok(ip.to_string()),
        Err(e) => Err(e.to_string()),
    }
}

impl ProxySettings {
    /// Settings for `port` at `custom_ip`, or at this machine's local address
    /// when none is given.
    pub fn new(port: u16, custom_ip: Option<String>) -> (r: Result<ProxySettings, AppError>)
        ensures
            custom_ip is Some ==> r is Ok && r->Ok_0.ip@ == custom_ip->Some_0@,
            r is Ok ==> r->Ok_0.port == port,
            r is Err ==> custom_ip is None && r->Err_0 is LocalIpError,
    {
        let ip = match custom_ip {
            Some(ip) => ip,
            None => match local_ip_text() {
                Ok(ip) => ip,
                Err(reason) => {
                    return Err(AppError::LocalIpError { reason });
                },
            },
        };
        Ok(ProxySettings { ip, port })
    }

    /// The proxy value `ip:port` that is written to the device.
    pub fn to_proxy_string(&self) -> (r: String)
        ensures
            r@ == proxy_string(self.ip@, self.port),
    {
        let mut s = self.ip.clone();
        s.append(":");
        push_decimal(&mut s, self.port);
        s
    }
}

/// Whether a value read back from the device means that no proxy is set:
/// the empty value or `:0`.
pub fn is_proxy_unset(value: &str) -> (r: bool)
    ensures
        r == is_unset(value@),
{
    proof {
        reveal_strlit(":0");
    }
    let n = value.unicode_len();
    if n == 0 {
        return true;
    }
    if n == 2 && value.get_char(0) == ':' && value.get_char(1) == '0' {
        assert(value@ =~= ":0"@);
        return true;
    }
    false
}

/// Splits a proxy value into address and port at its first colon.
pub fn split_proxy(value: &str) -> (r: Option<(String, String)>)
    ensures
        r is None <==> split_once(value@, ':') is None,
        r is Some ==> r->Some_0.0@ == split_once(value@, ':')->Some_0.0 && r->Some_0.1@
            == split_once(value@, ':')->Some_0.1,
{
    split_once_char(value, ':')
}

} // verus!
