//! The agent endpoint: the address chosen among those a host name resolved
//! to, and the message reported when it resolved to none.

use vstd::prelude::*;
use vstd::string::*;

verus! {

/// A socket address as name resolution yields it, held as plain numbers: the
/// IP address as one integer whose most significant byte is the first byte
/// of the address, the port, and for IPv6 the flow information and the scope
/// identifier.
#[derive(Clone, Copy, Debug, PartialEq, Eq, Structural)]
pub enum SocketAddress {
    V4 { ipv4: u32, port: u16 },
    V6 { ipv6: u128, port: u16, flowinfo: u32, scope_id: u32 },
}

/// The character that stands for a single decimal digit.
pub open spec fn digit(d: nat) -> char
    recommends
        d < 10,
{
    if d == 0 {
        '0'
    } else if d == 1 {
        '1'
    } else if d == 2 {
        '2'
    } else if d == 3 {
        '3'
    } else if d == 4 {
        '4'
    } else if d == 5 {
        '5'
    } else if d == 6 {
        '6'
    } else if d == 7 {
        '7'
    } else if d == 8 {
        '8'
    } else {
        '9'
    }
}

/// The decimal numeral of `n`: most significant digit first, no sign, no
/// padding, and a single `0` for zero.
pub open spec fn decimal(n: nat) -> Seq<char>
    decreases n,
{
    if n < 10 {
        seq![digit(n)]
    } else {
        decimal(n / 10).push(digit(n % 10))
    }
}

/// The number that a digit character stands for.
pub open spec fn digit_value(c: char) -> nat {
    if c == '1' {
        1
    } else if c == '2' {
        2
    } else if c == '3' {
        3
    } else if c == '4' {
        4
    } else if c == '5' {
        5
    } else if c == '6' {
        6
    } else if c == '7' {
        7
    } else if c == '8' {
        8
    } else if c == '9' {
        9
    } else {
        0
    }
}

/// The number that a sequence of digit characters denotes in base ten.
pub open spec fn numeral_value(s: Seq<char>) -> nat
    decreases s.len(),
{
    if s.len() == 0 {
        0
    } else {
        numeral_value(s.drop_last()) * 10 + digit_value(s.last())
    }
}

/// The decimal numeral of a number reads back as that number, so two
/// different numbers never share a numeral. It is never empty, and only the
/// numeral of zero begins with a zero.
pub proof fn decimal_denotes(n: nat)
    ensures
        numeral_value(decimal(n)) == n,
        decimal(n).len() >= 1,
        n > 0 ==> decimal(n)[0] != '0',
    decreases n,
{
    let s = decimal(n);
    if n < 10 {
        assert(s.drop_last() =~= Seq::<char>::empty());
        assert(numeral_value(s.drop_last()) == 0);
    } else {
        decimal_denotes(n / 10);
        assert(s.drop_last() =~= decimal(n / 10));
        assert(s[0] == decimal(n / 10)[0]);
    }
}

/// The one-character text of a decimal digit.
fn digit_text(d: u16) -> (text: &'static str)
    requires
        d < 10,
    ensures
        text@ == seq![digit(d as nat)],
{
    proof {
        reveal_strlit("0");
        reveal_strlit("1");
        reveal_strlit("2");
        reveal_strlit("3");
        reveal_strlit("4");
        reveal_strlit("5");
        reveal_strlit("6");
        reveal_strlit("7");
        reveal_strlit("8");
        reveal_strlit("9");
    }
    if d == 0 {
        "0"
    } else if d == 1 {
        "1"
    } else if d == 2 {
        "2"
    } else if d == 3 {
        "3"
    } else if d == 4 {
        "4"
    } else if d == 5 {
        "5"
    } else if d == 6 {
        "6"
    } else if d == 7 {
        "7"
    } else if d == 8 {
        "8"
    } else {
        "9"
    }
}

/// Appends the decimal numeral of `n` to `out`.
pub fn push_decimal(out: &mut String, n: u16)
    ensures
        final(out)@ == old(out)@ + decimal(n as nat),
    decreases n,
{
    if n >= 10 {
        push_decimal(out, n / 10);
    }
    out.append(digit_text(n % 10));
}

/// The text reported when `host` resolved to no address at all: a fixed
/// opening, the host as given, a colon, and the port in decimal.
pub open spec fn unresolved_text(host: Seq<char>, port: u16) -> Seq<char> {
    "Could not resolve jaeger agent address "@ + host + ":"@ + decimal(port as nat)
}

/// Builds the message for a host that resolved to no address.
pub fn unresolved_message(host: &str, port: u16) -> (message: String)
    ensures
        message@ == unresolved_text(host@, port),
{
    let mut message = String::from_str("Could not resolve jaeger agent address ");
    message.append(host);
    message.append(":");
    push_decimal(&mut message, port);
    message
}

/// What resolution of `host` and `port` comes to, given the addresses the
/// resolver produced in its order: the first of them, or the message that
/// names the host and port when there is none.
pub open spec fn first_resolved(
    host: Seq<char>,
    port: u16,
    resolved: Seq<SocketAddress>,
) -> Result<SocketAddress, Seq<char>> {
    if resolved.len() > 0 {
        Ok(resolved[0])
    } else {
        Err(unresolved_text(host, port))
    }
}

/// Chooses the agent address among the addresses that `host` and `port`
/// resolved to. The first one is taken; the others are ignored. With no
/// address the result is the message of `unresolved_text`.
pub fn resolve_agent_address(host: &str, port: u16, resolved: &Vec<SocketAddress>) -> (r: Result<
    SocketAddress,
    String,
>)
    ensures
        match r {
            Ok(address) => first_resolved(host@, port, resolved@) == Ok::<
                SocketAddress,
                Seq<char>,
            >(address),
            Err(message) => first_resolved(host@, port, resolved@) == Err::<
                SocketAddress,
                Seq<char>,
            >(message@),
        },
{
    if resolved.len() > 0 {
        Ok(resolved[0])
    } else {
        Err(unresolved_message(host, port))
    }
}

} // verus!
