use vstd::prelude::*;

verus! {

/// The lowercase hex digit of a value below 16.
pub open spec fn hex_digit(v: u8) -> char {
    if v < 10 {
        (('0' as u8) + v) as char
    } else {
        (('a' as u8) + (v - 10)) as char
    }
}

/// Two lowercase hex digits per byte, the high digit first.
pub open spec fn hex_spec(b: Seq<u8>) -> Seq<char>
    decreases b.len(),
{
    if b.len() == 0 {
        seq![]
    } else {
        hex_spec(b.drop_last()) + seq![hex_digit(b.last() / 16), hex_digit(b.last() % 16)]
    }
}

/// The value of a hex digit of either case.
pub open spec fn digit_value(c: char) -> Option<u8> {
    if '0' <= c && c <= '9' {
        Some((c as u8 - '0' as u8) as u8)
    } else if 'a' <= c && c <= 'f' {
        Some((c as u8 - 'a' as u8 + 10) as u8)
    } else if 'A' <= c && c <= 'F' {
        Some((c as u8 - 'A' as u8 + 10) as u8)
    } else {
        None
    }
}

/// Whether `s` is an even number of hex digits.
pub open spec fn is_hex(s: Seq<char>) -> bool {
    s.len() % 2 == 0 && forall|i: int| 0 <= i < s.len() ==> (#[trigger] digit_value(s[i])) is Some
}

/// The bytes that an even number of hex digits stand for, two digits per byte.
pub open spec fn unhex_spec(s: Seq<char>) -> Seq<u8> {
    Seq::new(
        s.len() / 2,
        |i: int| (digit_value(s[2 * i])->Some_0 * 16 + digit_value(s[2 * i + 1])->Some_0) as u8,
    )
}

#[verifier::external_type_specification]
#[verifier::external_body]
pub struct ExFromHexError(hex::FromHexError);

/// Relies on `hex::encode`: two lowercase digits for each byte, the high digit first.
#[verifier::external_body]
fn encode_hex(b: &[u8]) -> (r: String)
    ensures
        r@ == hex_spec(b@),
{
    hex::encode(b)
}

/// Relies on `hex::decode`: digits of either case, two per byte; an odd number of digits or
/// any other character is an error.
#[verifier::external_body]
fn decode_hex(s: &str) -> (r: Result<Vec<u8>, hex::FromHexError>)
    ensures
        r is Ok <==> is_hex(s@),
        r is Ok ==> r->Ok_0@ == unhex_spec(s@),
{
    hex::decode(s)
}

/// Why a hex string could not be read.
#[derive(Debug, Clone, Copy, PartialEq, Eq, Structural)]
pub enum HexError {
    /// The string does not start with `0x`.
    MissingPrefix,
    /// What follows `0x` is not an even number of hex digits.
    InvalidHex,
    /// The bytes are not as many as the array holds.
    WrongLength { expected: usize, got: usize },
}

/// The bytes as lowercase hex digits after `0x`.
pub fn to_prefixed_hex(b: &[u8]) -> (r: String)
    ensures
        r@ == "0x"@ + hex_spec(b@),
{
    let prefix = String::from_str("0x");
    prefix.concat(encode_hex(b).as_str())
}

pub open spec fn decode_prefixed_spec(s: Seq<char>) -> Result<Seq<u8>, HexError> {
    if s.len() < 2 || s.take(2) != "0x"@ {
        Err(HexError::MissingPrefix)
    } else if !is_hex(s.skip(2)) {
        Err(HexError::InvalidHex)
    } else {
        Ok(unhex_spec(s.skip(2)))
    }
}

/// Reads hex digits after a `0x` prefix.
pub fn decode_prefixed_hex(s: &str) -> (r: Result<Vec<u8>, HexError>)
    ensures
        match decode_prefixed_spec(s@) {
            Ok(b) => r is Ok && r->Ok_0@ == b,
            Err(e) => r == Err::<Vec<u8>, HexError>(e),
        },
{
    proof {
        reveal_strlit("0x");
    }
    let n = s.unicode_len();
    if n < 2 {
        return Err(HexError::MissingPrefix);
    }
    if s.get_char(0) != '0' || s.get_char(1) != 'x' {
        proof {
            assert(s@.take(2) != "0x"@) by {
                if s@.take(2) == "0x"@ {
                    assert(s@.take(2)[0] == s@[0]);
                    assert(s@.take(2)[1] == s@[1]);
                }
            }
        }
        return Err(HexError::MissingPrefix);
    }
    assert(s@.take(2) =~= "0x"@);
    let rest = s.substring_char(2, n);
    assert(rest@ =~= s@.skip(2));
    match decode_hex(rest) {
        Ok(bytes) => Ok(bytes),
        Err(_) => Err(HexError::InvalidHex),
    }
}

/// Reads exactly `len` bytes written as hex digits after `0x`.
pub fn bytes_from_prefixed_hex(s: &str, len: usize) -> (r: Result<Vec<u8>, HexError>)
    ensures
        match decode_prefixed_spec(s@) {
            Ok(b) => if b.len() == len {
                r is Ok && r->Ok_0@ == b
            } else {
                r == Err::<Vec<u8>, HexError>(HexError::WrongLength { expected: len, got: b.len() as usize })
            },
            Err(e) => r == Err::<Vec<u8>, HexError>(e),
        },
{
    let decoded = decode_prefixed_hex(s)?;
    if decoded.len() != len {
        return Err(HexError::WrongLength { expected: len, got: decoded.len() });
    }
    Ok(decoded)
}

} // verus!
