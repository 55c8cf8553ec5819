//! Endpoint addresses: a host and a port, written as `host:port`.

use vstd::prelude::*;
use vstd::string::*;

verus! {

/// Whether a host and a port can name an endpoint: the host is not empty and
/// the port is not zero.
pub open spec fn valid_address(host: Seq<char>, port: u16) -> bool {
    host.len() > 0 && port >= 1
}

/// The character of a decimal digit.
pub open spec fn digit_char(digit: nat) -> char {
    if digit == 0 {
        '0'
    } else if digit == 1 {
        '1'
    } else if digit == 2 {
        '2'
    } else if digit == 3 {
        '3'
    } else if digit == 4 {
        '4'
    } else if digit == 5 {
        '5'
    } else if digit == 6 {
        '6'
    } else if digit == 7 {
        '7'
    } else if digit == 8 {
        '8'
    } else {
        '9'
    }
}

/// A number in decimal, without leading zeros.
pub open spec fn decimal(n: nat) -> Seq<char>
    decreases n,
{
    if n < 10 {
        seq![digit_char(n)]
    } else {
        decimal(n / 10).push(digit_char(n % 10))
    }
}

/// The address of an endpoint as text: the host, a colon, the port in
/// decimal.
pub open spec fn address_text(host: Seq<char>, port: u16) -> Seq<char> {
    host + seq![':'] + decimal(port as nat)
}

/// One decimal digit as a string.
fn digit_str(digit: u16) -> (text: &'static str)
    requires
        digit < 10,
    ensures
        text@ == seq![digit_char(digit as nat)],
{
    proof {
        reveal_strlit("0");
        reveal_strlit("1");
        reveal_strlit("2");
        reveal_strlit("3");
        reveal_strlit("4");
        reveal_strlit("5");
        reveal_strlit("6");
        reveal_strlit("7");
        reveal_strlit("8");
        reveal_strlit("9");
    }
    let text = if digit == 0 {
        "0"
    } else if digit == 1 {
        "1"
    } else if digit == 2 {
        "2"
    } else if digit == 3 {
        "3"
    } else if digit == 4 {
        "4"
    } else if digit == 5 {
        "5"
    } else if digit == 6 {
        "6"
    } else if digit == 7 {
        "7"
    } else if digit == 8 {
        "8"
    } else {
        "9"
    };
    assert(text@ =~= seq![digit_char(digit as nat)]);
    text
}

/// A port number in decimal.
pub fn port_text(port: u16) -> (text: String)
    ensures
        text@ == decimal(port as nat),
    decreases port,
{
    if port < 10 {
        digit_str(port).to_owned()
    } else {
        let mut text = port_text(port / 10);
        text.append(digit_str(port % 10));
        assert(text@ =~= decimal(port as nat / 10).push(digit_char(port as nat % 10)));
        text
    }
}

/// The address of an endpoint as text, as a transport takes it to connect or
/// to bind.
pub fn endpoint_address(host: &str, port: u16) -> (text: String)
    ensures
        text@ == address_text(host@, port),
{
    proof {
        reveal_strlit(":");
    }
    let mut text = host.to_owned();
    text.append(":");
    let digits = port_text(port);
    text.append(digits.as_str());
    assert(text@ =~= address_text(host@, port));
    text
}

} // verus!
