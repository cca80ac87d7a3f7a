use vstd::prelude::*;

verus! {

/// Whether `c` is an ASCII hexadecimal digit.
pub open spec fn is_hex_digit(c: char) -> bool {
    (('0' as u32) <= (c as u32) && (c as u32) <= ('9' as u32)) || (('a' as u32) <= (c as u32) && (c
        as u32) <= ('f' as u32)) || (('A' as u32) <= (c as u32) && (c as u32) <= ('F' as u32))
}

/// The value of the hexadecimal digit `c`.
pub open spec fn hex_val(c: char) -> u8 {
    if ('0' as u32) <= (c as u32) && (c as u32) <= ('9' as u32) {
        ((c as u32) - ('0' as u32)) as u8
    } else if ('a' as u32) <= (c as u32) && (c as u32) <= ('f' as u32) {
        ((c as u32) - ('a' as u32) + 10) as u8
    } else {
        ((c as u32) - ('A' as u32) + 10) as u8
    }
}

/// Whether `s` is a well-formed hexadecimal string: an even number of
/// characters, all of them hexadecimal digits.
pub open spec fn valid_hex(s: Seq<char>) -> bool {
    s.len() % 2 == 0 && (forall|i: int| 0 <= i < s.len() ==> is_hex_digit(#[trigger] s[i]))
}

/// The bytes that the hexadecimal string `s` spells, two digits per byte.
pub open spec fn hex_decoded(s: Seq<char>) -> Seq<u8> {
    Seq::new(s.len() / 2, |i: int| (hex_val(s[2 * i]) * 16 + hex_val(s[2 * i + 1])) as u8)
}

/// Relies on hex::decode: a string decodes exactly when it has an even
/// number of characters, all hexadecimal digits (a character outside that
/// set, ASCII or not, is rejected), and then yields the bytes its digit
/// pairs spell, upper and lower case alike.
#[verifier::external_body]
pub fn hex_decode(s: &str) -> (r: Option<Vec<u8>>)
    ensures
        r is Some <==> valid_hex(s@),
        r matches Some(b) ==> b@ == hex_decoded(s@),
{
    match hex::decode(s) {
        Ok(b) => Some(b),
        Err(_) => None,
    }
}

/// The address digits of `s`: what follows an optional `0x` prefix.
pub open spec fn spec_addr_digits(s: Seq<char>) -> Seq<char> {
    if s.len() >= 2 && s[0] == '0' && (s[1] == 'x' || s[1] == 'X') {
        s.skip(2)
    } else {
        s
    }
}

/// Whether `s` is a well-formed EVM address: an optional `0x` prefix
/// followed by exactly 40 hexadecimal digits.
pub open spec fn valid_eth_address(s: Seq<char>) -> bool {
    valid_hex(spec_addr_digits(s)) && spec_addr_digits(s).len() == 40
}

/// The 20 bytes that the address string `s` spells.
pub open spec fn eth_address_bytes(s: Seq<char>) -> Seq<u8> {
    hex_decoded(spec_addr_digits(s))
}

/// Parses an EVM address string — an optional `0x` prefix and 40
/// hexadecimal digits — into its 20 bytes.
pub fn parse_eth_address(s: &str) -> (r: Option<Vec<u8>>)
    ensures
        r is Some <==> valid_eth_address(s@),
        r matches Some(b) ==> b@ == eth_address_bytes(s@) && b@.len() == 20,
{
    let len = s.unicode_len();
    let digits: &str = if len >= 2 && s.get_char(0) == '0' && (s.get_char(1) == 'x' || s.get_char(
        1,
    ) == 'X') {
        let d = s.substring_char(2, len);
        proof {
            assert(d@ =~= spec_addr_digits(s@));
        }
        d
    } else {
        s
    };
    match hex_decode(digits) {
        Some(b) => {
            if b.len() == 20 {
                Some(b)
            } else {
                None
            }
        },
        None => None,
    }
}

} // verus!
