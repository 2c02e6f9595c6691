//! The documentation server's part that computes: where the root path
//! redirects to, and under which address a browser reaches the server.

use vstd::prelude::*;
use vstd::string::StringExecFns;

verus! {

/// The path that a request for `/` is redirected to: the entry page of the
/// documented unit.
pub open spec fn redirect_target_of(unit: Seq<char>) -> Seq<char> {
    seq!['/'] + unit + seq!['/']
}

/// The path that a request for `/` is redirected to when `unit` is the
/// documented unit.
pub fn redirect_target(unit: &str) -> (target: String)
    ensures
        target@ == redirect_target_of(unit@),
{
    proof {
        reveal_strlit("/");
    }
    let mut target = String::from_str("/");
    target.append(unit);
    target.append("/");
    target
}

/// The decimal digit for `d`, which is below ten.
pub open spec fn digit(d: nat) -> char
    recommends
        d < 10,
{
    if d == 0 {
        '0'
    } else if d == 1 {
        '1'
    } else if d == 2 {
        '2'
    } else if d == 3 {
        '3'
    } else if d == 4 {
        '4'
    } else if d == 5 {
        '5'
    } else if d == 6 {
        '6'
    } else if d == 7 {
        '7'
    } else if d == 8 {
        '8'
    } else {
        '9'
    }
}

/// `n` in decimal, without leading zeros.
pub open spec fn decimal(n: nat) -> Seq<char>
    decreases n,
{
    if n < 10 {
        seq![digit(n)]
    } else {
        decimal(n / 10) + seq![digit(n % 10)]
    }
}

fn digit_text(d: u16) -> (text: &'static str)
    requires
        d < 10,
    ensures
        text@ == seq![digit(d as nat)],
{
    proof {
        reveal_strlit("0");
        reveal_strlit("1");
        reveal_strlit("2");
        reveal_strlit("3");
        reveal_strlit("4");
        reveal_strlit("5");
        reveal_strlit("6");
        reveal_strlit("7");
        reveal_strlit("8");
        reveal_strlit("9");
    }
    let text = match d {
        0 => "0",
        1 => "1",
        2 => "2",
        3 => "3",
        4 => "4",
        5 => "5",
        6 => "6",
        7 => "7",
        8 => "8",
        _ => "9",
    };
    text
}

/// Writes `n` in decimal.
pub fn decimal_text(n: u16) -> (text: String)
    ensures
        text@ == decimal(n as nat),
    decreases n,
{
    if n < 10 {
        String::from_str(digit_text(n))
    } else {
        let mut text = decimal_text(n / 10);
        text.append(digit_text(n % 10));
        text
    }
}

/// The host part of the address that the server binds to.
#[derive(Clone, Copy, Debug, PartialEq, Eq, Structural)]
pub enum BindHost {
    /// An IPv4 address, by its four octets.
    V4(u8, u8, u8, u8),
    /// An IPv6 address.
    V6,
}

impl BindHost {
    /// The IPv4 address `0.0.0.0`, which stands for every local address.
    pub open spec fn is_unspecified_v4(self) -> bool {
        self == BindHost::V4(0, 0, 0, 0)
    }
}

/// The address that the server binds to.
#[derive(Debug, PartialEq, Eq)]
pub struct BindAddress {
    /// The host part.
    pub host: BindHost,
    /// The port.
    pub port: u16,
    /// The whole address as it is written, host and port.
    pub text: String,
}

/// What a [`BindAddress`] holds.
pub struct BindAddressView {
    pub host: BindHost,
    pub port: u16,
    pub text: Seq<char>,
}

impl View for BindAddress {
    type V = BindAddressView;

    open spec fn view(&self) -> BindAddressView {
        BindAddressView { host: self.host, port: self.port, text: self.text@ }
    }
}

/// The address under which a browser on this machine reaches a server bound
/// to `address`: `localhost` with the port where the server listens on every
/// IPv4 address, and the bound address itself otherwise.
pub open spec fn openable_address_of(address: BindAddressView) -> Seq<char> {
    if address.host.is_unspecified_v4() {
        "http://localhost:"@ + decimal(address.port as nat)
    } else {
        "http://"@ + address.text + "/"@
    }
}

impl Default for BindAddress {
    /// Every IPv4 address of this machine, on port 8000.
    fn default() -> (address: Self)
        ensures
            address@ == (BindAddressView {
                host: BindHost::V4(0, 0, 0, 0),
                port: 8000,
                text: "0.0.0.0:8000"@,
            }),
    {
        BindAddress {
            host: BindHost::V4(0, 0, 0, 0),
            port: 8000,
            text: String::from_str("0.0.0.0:8000"),
        }
    }
}

impl BindAddress {
    /// Whether the server listens on every IPv4 address.
    pub fn is_unspecified_v4(&self) -> (b: bool)
        ensures
            b == self@.host.is_unspecified_v4(),
    {
        match self.host {
            BindHost::V4(a, b, c, d) => a == 0 && b == 0 && c == 0 && d == 0,
            BindHost::V6 => false,
        }
    }

    /// The address to open in a browser.
    pub fn openable_address(&self) -> (url: String)
        ensures
            url@ == openable_address_of(self@),
    {
        if self.is_unspecified_v4() {
            let mut url = String::from_str("http://localhost:");
            url.append(decimal_text(self.port).as_str());
            url
        } else {
            let mut url = String::from_str("http://");
            url.append(self.text.as_str());
            url.append("/");
            url
        }
    }
}

} // verus!
