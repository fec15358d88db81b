//! Host names, transport locators and the node index carried in a host name.
use vstd::prelude::*;
use vstd::string::StringSliceAdditionalSpecFns;

verus! {

/// The fixed service port every node listens on.
pub const SERVICE_PORT: u16 = 9000;

/// Why a node index could not be read from a host name.
#[derive(Debug, Clone, Copy, PartialEq, Eq, Structural)]
pub enum ConfigError {
    /// The host name does not start with `node`.
    MissingPrefix,
    /// Nothing follows the `node` prefix.
    Empty,
    /// A byte that is not a decimal digit.
    InvalidDigit,
    /// The number does not fit in 64 bits.
    Overflow,
}

pub open spec fn digit_char(d: int) -> char {
    if d == 0 { '0' }
    else if d == 1 { '1' }
    else if d == 2 { '2' }
    else if d == 3 { '3' }
    else if d == 4 { '4' }
    else if d == 5 { '5' }
    else if d == 6 { '6' }
    else if d == 7 { '7' }
    else if d == 8 { '8' }
    else { '9' }
}

/// The decimal rendering of `n`, most significant digit first, without leading zeros.
pub open spec fn decimal(n: nat) -> Seq<char>
    decreases n,
{
    if n < 10 {
        seq![digit_char(n as int)]
    } else {
        decimal(n / 10).push(digit_char((n % 10) as int))
    }
}

pub open spec fn node_prefix_chars() -> Seq<char> {
    seq!['n', 'o', 'd', 'e']
}

/// The conventional host name of a node: `node` followed by its index.
pub open spec fn host_name_spec(index: u64) -> Seq<char> {
    node_prefix_chars() + decimal(index as nat)
}

/// `/ip4/<a.b.c.d>/tcp/<port>`.
pub open spec fn locator_spec(ip: Seq<u8>, port: u16) -> Seq<char> {
    seq!['/', 'i', 'p', '4', '/'] + decimal(ip[0] as nat) + seq!['.'] + decimal(ip[1] as nat)
        + seq!['.'] + decimal(ip[2] as nat) + seq!['.'] + decimal(ip[3] as nat)
        + seq!['/', 't', 'c', 'p', '/'] + decimal(port as nat)
}

fn digit_str(d: u64) -> (r: &'static str)
    requires
        d < 10,
    ensures
        r@ == seq![digit_char(d as int)],
{
    proof {
        reveal_strlit("0");
        reveal_strlit("1");
        reveal_strlit("2");
        reveal_strlit("3");
        reveal_strlit("4");
        reveal_strlit("5");
        reveal_strlit("6");
        reveal_strlit("7");
        reveal_strlit("8");
        reveal_strlit("9");
    }
    let r = if d == 0 { "0" }
    else if d == 1 { "1" }
    else if d == 2 { "2" }
    else if d == 3 { "3" }
    else if d == 4 { "4" }
    else if d == 5 { "5" }
    else if d == 6 { "6" }
    else if d == 7 { "7" }
    else if d == 8 { "8" }
    else { "9" };
    assert(r@ =~= seq![digit_char(d as int)]);
    r
}

/// Appends the decimal rendering of `n` to `s`.
pub fn push_decimal(s: &mut String, n: u64)
    ensures
        final(s)@ == old(s)@ + decimal(n as nat),
    decreases n,
{
    if n < 10 {
        s.append(digit_str(n));
        assert(decimal(n as nat) == seq![digit_char(n as int)]);
    } else {
        push_decimal(s, n / 10);
        s.append(digit_str(n % 10));
        assert(decimal(n as nat) == decimal((n / 10) as nat).push(digit_char((n % 10) as int)));
        assert(final(s)@ =~= old(s)@ + decimal(n as nat));
    }
}

/// The host name under which node `index` is reached.
pub fn host_name_for(index: u64) -> (r: String)
    ensures
        r@ == host_name_spec(index),
{
    proof {
        reveal_strlit("node");
    }
    let mut s = String::from_str("node");
    assert(s@ =~= node_prefix_chars());
    push_decimal(&mut s, index);
    s
}

/// The transport locator of a resolved IPv4 address at a port.
pub fn locator_for(ip: [u8; 4], port: u16) -> (r: String)
    ensures
        r@ == locator_spec(ip@, port),
{
    proof {
        reveal_strlit("/ip4/");
        reveal_strlit(".");
        reveal_strlit("/tcp/");
    }
    let mut s = String::from_str("/ip4/");
    push_decimal(&mut s, ip[0] as u64);
    s.append(".");
    push_decimal(&mut s, ip[1] as u64);
    s.append(".");
    push_decimal(&mut s, ip[2] as u64);
    s.append(".");
    push_decimal(&mut s, ip[3] as u64);
    s.append("/tcp/");
    push_decimal(&mut s, port as u64);
    assert(s@ =~= locator_spec(ip@, port));
    s
}

pub open spec fn node_prefix_bytes() -> Seq<u8> {
    seq![110u8, 111u8, 100u8, 101u8]
}

pub open spec fn is_digit(c: u8) -> bool {
    48 <= c && c <= 57
}

pub open spec fn all_digits(b: Seq<u8>) -> bool {
    forall|i: int| 0 <= i < b.len() ==> is_digit(#[trigger] b[i])
}

/// The number that a run of decimal digits denotes.
pub open spec fn digits_value(b: Seq<u8>) -> nat
    decreases b.len(),
{
    if b.len() == 0 {
        0
    } else {
        digits_value(b.drop_last()) * 10 + (b.last() - 48) as nat
    }
}

/// The unsigned decimal number written in `d`.
pub open spec fn parse_digits_spec(d: Seq<u8>) -> Result<u64, ConfigError> {
    if d.len() == 0 {
        Err(ConfigError::Empty)
    } else if !all_digits(d) {
        Err(ConfigError::InvalidDigit)
    } else if digits_value(d) > u64::MAX {
        Err(ConfigError::Overflow)
    } else {
        Ok(digits_value(d) as u64)
    }
}

/// The node index written in host name bytes `b`: exactly one `node` prefix,
/// then one or more decimal digits whose value fits in 64 bits.
pub open spec fn parse_index_spec(b: Seq<u8>) -> Result<u64, ConfigError> {
    if b.len() < 4 || b.subrange(0, 4) != node_prefix_bytes() {
        Err(ConfigError::MissingPrefix)
    } else {
        parse_digits_spec(b.subrange(4, b.len() as int))
    }
}

fn parse_digits(b: &[u8], start: usize) -> (r: Result<u64, ConfigError>)
    requires
        start <= b@.len(),
    ensures
        r == parse_digits_spec(b@.subrange(start as int, b@.len() as int)),
{
    let ghost d = b@.subrange(start as int, b@.len() as int);
    let len = b.len();
    if start == len {
        return Err(ConfigError::Empty);
    }
    let mut i: usize = start;
    let mut acc: u64 = 0;
    let mut overflow = false;
    while i < len
        invariant
            len == b@.len(),
            start <= i <= len,
            d == b@.subrange(start as int, len as int),
            !overflow ==> acc as nat == digits_value(d.subrange(0, i - start)),
            overflow ==> digits_value(d.subrange(0, i - start)) > u64::MAX,
            forall|j: int| 0 <= j < i - start ==> is_digit(#[trigger] d[j]),
        decreases len - i,
    {
        let c = b[i];
        if c < 48u8 || c > 57u8 {
            assert(d[i - start] == c);
            assert(!is_digit(d[i - start]));
            return Err(ConfigError::InvalidDigit);
        }
        let ghost p = d.subrange(0, i - start + 1);
        assert(p.drop_last() =~= d.subrange(0, i - start));
        assert(p.last() == c);
        if !overflow {
            let dv = (c - 48u8) as u64;
            if acc > (u64::MAX - dv) / 10 {
                assert(acc * 10 + dv > u64::MAX) by(nonlinear_arith)
                    requires acc > (u64::MAX - dv) / 10, dv <= 9;
                overflow = true;
            } else {
                assert(acc * 10 + dv <= u64::MAX) by(nonlinear_arith)
                    requires acc <= (u64::MAX - dv) / 10, dv <= 9;
                acc = acc * 10 + dv;
            }
        } else {
            assert(digits_value(p) >= digits_value(p.drop_last())) by(nonlinear_arith)
                requires digits_value(p) == digits_value(p.drop_last()) * 10 + (c - 48) as nat;
        }
        i = i + 1;
    }
    assert(d.subrange(0, i - start) =~= d);
    assert(all_digits(d));
    if overflow {
        Err(ConfigError::Overflow)
    } else {
        Ok(acc)
    }
}

/// Reads the node index from a host name of the form `node<index>`.
pub fn parse_node_index(hostname: &str) -> (r: Result<u64, ConfigError>)
    ensures
        r == parse_index_spec(hostname.spec_bytes()),
{
    let b = hostname.as_bytes();
    let ghost bs = b@;
    let len = b.len();
    if len < 4 || b[0] != 110u8 || b[1] != 111u8 || b[2] != 100u8 || b[3] != 101u8 {
        proof {
            if len >= 4 && bs.subrange(0, 4) == node_prefix_bytes() {
                assert(bs.subrange(0, 4)[0] == b[0]);
                assert(bs.subrange(0, 4)[1] == b[1]);
                assert(bs.subrange(0, 4)[2] == b[2]);
                assert(bs.subrange(0, 4)[3] == b[3]);
            }
        }
        return Err(ConfigError::MissingPrefix);
    }
    assert(bs.subrange(0, 4) =~= node_prefix_bytes());
    parse_digits(b, 4)
}

} // verus!
