//! Permission bitmasks as they arrive on the wire: text holding a number.

use vstd::prelude::*;

verus! {

/// The value of `c` as a digit, for bases up to 36: `0-9`, then the letters
/// of either case counting from ten. `None` for every other character.
pub open spec fn digit_of(c: char) -> Option<nat> {
    if '0' <= c && c <= '9' {
        Some((c as nat - '0' as nat) as nat)
    } else if 'a' <= c && c <= 'z' {
        Some((c as nat - 'a' as nat + 10) as nat)
    } else if 'A' <= c && c <= 'Z' {
        Some((c as nat - 'A' as nat + 10) as nat)
    } else {
        None
    }
}

/// Whether every character of `s` is a digit of base `radix`.
pub open spec fn all_digits(s: Seq<char>, radix: nat) -> bool {
    forall|i: int|
        0 <= i < s.len() ==> (#[trigger] digit_of(s[i])) is Some && digit_of(s[i])->0 < radix
}

/// The number that the digits of `s` denote in base `radix`, most
/// significant digit first.
pub open spec fn digits_value(s: Seq<char>, radix: nat) -> nat
    decreases s.len(),
{
    if s.len() == 0 {
        0
    } else {
        digits_value(s.drop_last(), radix) * radix + digit_of(s.last()).unwrap_or(0)
    }
}

/// What remains of `s` once one leading `+` is taken off.
pub open spec fn unsigned_part(s: Seq<char>) -> Seq<char> {
    if s.len() > 0 && s[0] == '+' {
        s.subrange(1, s.len() as int)
    } else {
        s
    }
}

/// The `u64` written in `s` in base `radix`: an optional `+`, then one or
/// more digits and nothing else, denoting a number that fits in 64 bits.
pub open spec fn parse_u64(s: Seq<char>, radix: nat) -> Option<u64> {
    let digits = unsigned_part(s);
    if digits.len() > 0 && all_digits(digits, radix) && digits_value(digits, radix) <= u64::MAX {
        Some(digits_value(digits, radix) as u64)
    } else {
        None
    }
}

/// The bitmask that a permission string stands for: its value read as a
/// decimal number, else as a hexadecimal number, else zero.
pub open spec fn permission_bits(s: Seq<char>) -> u64 {
    match parse_u64(s, 10) {
        Some(v) => v,
        None => match parse_u64(s, 16) {
            Some(v) => v,
            None => 0,
        },
    }
}

/// `str::parse::<u64>`: the standard library reads an optional `+` followed
/// by decimal digits only, and fails on an empty string, on any other
/// character and on a value above `u64::MAX`.
#[verifier::external_body]
fn parse_decimal(s: &str) -> (r: Option<u64>)
    ensures
        r == parse_u64(s@, 10),
{
    match s.parse::<u64>() {
        Ok(v) => Some(v),
        Err(_) => None,
    }
}

/// `u64::from_str_radix` with radix 16: the standard library reads an
/// optional `+` followed by hexadecimal digits of either case only, and
/// fails on an empty string, on any other character and on a value above
/// `u64::MAX`.
#[verifier::external_body]
fn parse_hexadecimal(s: &str) -> (r: Option<u64>)
    ensures
        r == parse_u64(s@, 16),
{
    match u64::from_str_radix(s, 16) {
        Ok(v) => Some(v),
        Err(_) => None,
    }
}

/// Reads a permission bitmask from its text form. Text that is neither a
/// decimal nor a hexadecimal `u64` yields the empty bitmask.
pub fn parse_permission_string(hex_string: &str) -> (bits: u64)
    ensures
        bits == permission_bits(hex_string@),
{
    match parse_decimal(hex_string) {
        Some(v) => v,
        None => match parse_hexadecimal(hex_string) {
            Some(v) => v,
            None => 0,
        },
    }
}

} // verus!
