use vstd::prelude::*;

verus! {

/// Why a hex text could not be turned into bytes.
#[derive(Clone, Copy, Debug, PartialEq, Eq, Structural)]
pub enum HexError {
    /// The character at `index` is not a hex digit.
    InvalidHexCharacter { c: char, index: usize },
    /// The text has an odd number of digits.
    OddLength,
    /// The text does not fit the size of the destination.
    InvalidStringLength,
}

/// The value of an ASCII hex digit, in upper or lower case.
pub open spec fn hex_digit_value(c: u8) -> Option<int> {
    if 0x30 <= c <= 0x39 {
        Some(c - 0x30)
    } else if 0x61 <= c <= 0x66 {
        Some(c - 0x61 + 10)
    } else if 0x41 <= c <= 0x46 {
        Some(c - 0x41 + 10)
    } else {
        None
    }
}

/// Whether every byte of `t` is a hex digit.
pub open spec fn all_hex_digits(t: Seq<u8>) -> bool {
    forall|i: int| 0 <= i < t.len() ==> (#[trigger] hex_digit_value(t[i])) is Some
}

/// Whether `t` is a hex text: an even number of hex digits.
pub open spec fn is_hex_text(t: Seq<u8>) -> bool {
    t.len() % 2 == 0 && all_hex_digits(t)
}

/// The bytes that the hex text `t` spells, two digits for each byte, the high
/// nibble first.
pub open spec fn hex_bytes(t: Seq<u8>) -> Seq<u8> {
    Seq::new(
        t.len() / 2,
        |i: int| (hex_digit_value(t[2 * i])->Some_0 * 16 + hex_digit_value(t[2 * i + 1])->Some_0) as u8,
    )
}

/// Whether `index` is the first position of `t` that holds no hex digit, and `c`
/// is the byte there read as a character.
pub open spec fn first_non_hex(t: Seq<u8>, c: char, index: usize) -> bool {
    &&& index < t.len()
    &&& hex_digit_value(t[index as int]) is None
    &&& forall|j: int| 0 <= j < index ==> (#[trigger] hex_digit_value(t[j])) is Some
    &&& c as u32 == t[index as int] as u32
}

/// The outcome of reading the hex text `t`.
pub open spec fn hex_decoding_ok(t: Seq<u8>, r: Result<Seq<u8>, HexError>) -> bool {
    if t.len() % 2 == 1 {
        r == Err::<Seq<u8>, HexError>(HexError::OddLength)
    } else if all_hex_digits(t) {
        r == Ok::<Seq<u8>, HexError>(hex_bytes(t))
    } else {
        r matches Err(HexError::InvalidHexCharacter { c, index }) && first_non_hex(t, c, index)
    }
}

/// The lower-case hex digit of the value `n` (0 to 15).
pub open spec fn lower_hex_digit(n: int) -> char {
    seq!['0', '1', '2', '3', '4', '5', '6', '7', '8', '9', 'a', 'b', 'c', 'd', 'e', 'f'][n]
}

/// The lower-case hex text of `b`: two digits for each byte, the high nibble first.
pub open spec fn lower_hex_text(b: Seq<u8>) -> Seq<char> {
    Seq::new(
        2 * b.len(),
        |i: int|
            if i % 2 == 0 {
                lower_hex_digit(b[i / 2] as int / 16)
            } else {
                lower_hex_digit(b[i / 2] as int % 16)
            },
    )
}

/// Relies on hex::decode: an odd length is refused first; otherwise each pair of
/// digits gives one byte, and the first byte that is no hex digit is reported
/// with its position.
#[verifier::external_body]
pub(crate) fn hex_decode(text: &[u8]) -> (r: Result<Vec<u8>, HexError>)
    ensures
        match r {
            Ok(v) => hex_decoding_ok(text@, Ok(v@)),
            Err(e) => hex_decoding_ok(text@, Err(e)),
        },
{
    match hex::decode(text) {
        Ok(v) => Ok(v),
        Err(hex::FromHexError::InvalidHexCharacter { c, index }) => Err(
            HexError::InvalidHexCharacter { c, index },
        ),
        Err(hex::FromHexError::OddLength) => Err(HexError::OddLength),
        Err(hex::FromHexError::InvalidStringLength) => Err(HexError::InvalidStringLength),
    }
}

/// Relies on hex::encode: two lower-case digits for each byte.
#[verifier::external_body]
pub(crate) fn hex_encode(b: &[u8]) -> (r: String)
    ensures
        r@ == lower_hex_text(b@),
{
    hex::encode(b)
}

} // verus!
