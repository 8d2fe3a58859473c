//! Hexadecimal text, as bytes of fixed width.

use vstd::prelude::*;

verus! {

/// Why a text is not the hexadecimal form of a byte string of the wanted width.
#[derive(Debug, Clone, Copy, PartialEq, Eq, Structural)]
pub enum HexError {
    /// The text has an odd number of characters.
    OddLength,
    /// The text does not have two characters for each wanted byte.
    InvalidStringLength,
    /// The character `c` at position `index` is no hexadecimal digit.
    InvalidHexCharacter { c: char, index: usize },
}

/// Whether `c` is one of `0`-`9`, `a`-`f`, `A`-`F`.
pub open spec fn is_hex_digit(c: u8) -> bool {
    ||| 0x30 <= c <= 0x39
    ||| 0x41 <= c <= 0x46
    ||| 0x61 <= c <= 0x66
}

/// The number that the hexadecimal digit `c` stands for.
pub open spec fn hex_digit_value(c: u8) -> int
    recommends
        is_hex_digit(c),
{
    if 0x30 <= c <= 0x39 {
        c - 0x30
    } else if 0x41 <= c <= 0x46 {
        c - 0x41 + 10
    } else {
        c - 0x61 + 10
    }
}

/// Whether `index` is the position of the first character of `text` that is
/// no hexadecimal digit.
pub open spec fn is_first_bad_digit(text: Seq<u8>, index: int) -> bool {
    &&& 0 <= index < text.len()
    &&& !is_hex_digit(text[index])
    &&& forall|j: int| 0 <= j < index ==> is_hex_digit(#[trigger] text[j])
}

/// Whether every character of `text` is a hexadecimal digit.
pub open spec fn all_hex_digits(text: Seq<u8>) -> bool {
    forall|j: int| 0 <= j < text.len() ==> is_hex_digit(#[trigger] text[j])
}

/// The bytes that a text of hexadecimal digits spells, two digits to the
/// byte, the high digit first.
pub open spec fn hex_bytes(text: Seq<u8>) -> Seq<u8> {
    Seq::new(
        text.len() / 2,
        |i: int| (hex_digit_value(text[2 * i]) * 16 + hex_digit_value(text[2 * i + 1])) as u8,
    )
}

/// What decoding `text` into `width` bytes gives: the bytes, or the first
/// fault in the order length parity, length, digits from the left.
pub open spec fn hex_decoding(text: Seq<u8>, width: nat) -> Result<Seq<u8>, HexError> {
    if text.len() % 2 != 0 {
        Err(HexError::OddLength)
    } else if text.len() / 2 != width {
        Err(HexError::InvalidStringLength)
    } else if all_hex_digits(text) {
        Ok(hex_bytes(text))
    } else {
        let index = choose|i: int| is_first_bad_digit(text, i);
        Err(HexError::InvalidHexCharacter { c: text[index] as char, index: index as usize })
    }
}

/// Whether decoding `text` into `width` bytes succeeds, and the fault where
/// it does not.
pub open spec fn hex_outcome(text: Seq<u8>, width: nat) -> Result<(), HexError> {
    match hex_decoding(text, width) {
        Ok(_) => Ok(()),
        Err(e) => Err(e),
    }
}

/// The bytes of a decoded array, or the fault.
pub open spec fn decoded_bytes<const N: usize>(decoded: Result<[u8; N], HexError>) -> Result<
    Seq<u8>,
    HexError,
> {
    match decoded {
        Ok(bytes) => Ok(bytes@),
        Err(e) => Err(e),
    }
}

/// `hex::decode_to_slice` on a byte text. It fails with `OddLength` on a text
/// of odd length, else with `InvalidStringLength` unless the text has two
/// characters for each byte of `out`, else with `InvalidHexCharacter` for the
/// leftmost character that is no hexadecimal digit; otherwise it fills `out`
/// with the bytes spelled. The length of `out` never changes.
#[verifier::external_body]
fn decode_to_slice(text: &[u8], out: &mut [u8]) -> (r: Result<(), HexError>)
    ensures
        final(out)@.len() == old(out)@.len(),
        r == hex_outcome(text@, old(out)@.len()),
        r is Ok ==> final(out)@ == hex_bytes(text@),
{
    match hex::decode_to_slice(text, out) {
        Ok(()) => Ok(()),
        Err(hex::FromHexError::OddLength) => Err(HexError::OddLength),
        Err(hex::FromHexError::InvalidStringLength) => Err(HexError::InvalidStringLength),
        Err(hex::FromHexError::InvalidHexCharacter { c, index }) => {
            Err(HexError::InvalidHexCharacter { c, index })
        },
    }
}

/// Decodes hexadecimal text into an array of exactly `N` bytes.
pub fn decode_hex<const N: usize>(text: &[u8]) -> (r: Result<[u8; N], HexError>)
    ensures
        decoded_bytes(r) == hex_decoding(text@, N as nat),
{
    let mut out = [0u8; N];
    match decode_to_slice(text, &mut out) {
        Ok(()) => Ok(out),
        Err(e) => Err(e),
    }
}

proof fn lemma_some_bad_digit_is_first(text: Seq<u8>, bound: int)
    requires
        0 <= bound <= text.len(),
        exists|j: int| 0 <= j < bound && !is_hex_digit(#[trigger] text[j]),
    ensures
        exists|i: int| is_first_bad_digit(text, i),
    decreases bound,
{
    if exists|j: int| 0 <= j < bound - 1 && !is_hex_digit(#[trigger] text[j]) {
        lemma_some_bad_digit_is_first(text, bound - 1);
    } else {
        assert(is_first_bad_digit(text, bound - 1));
    }
}

/// Decoding succeeds exactly on a text of two hexadecimal digits for each
/// wanted byte, and then gives that many bytes.
pub proof fn lemma_hex_decoding_succeeds(text: Seq<u8>, width: nat)
    ensures
        hex_decoding(text, width) is Ok <==> text.len() == 2 * width && all_hex_digits(text),
        hex_decoding(text, width) is Ok ==> hex_decoding(text, width)->Ok_0.len() == width,
{
}

/// Where a text of the right length is refused, the fault names its leftmost
/// character that is no hexadecimal digit.
pub proof fn lemma_hex_fault_is_leftmost(text: Seq<u8>, width: nat)
    requires
        text.len() == 2 * width,
        text.len() <= usize::MAX,
        !all_hex_digits(text),
    ensures
        hex_decoding(text, width) is Err,
        hex_decoding(text, width)->Err_0 is InvalidHexCharacter,
        is_first_bad_digit(text, hex_decoding(text, width)->Err_0->index as int),
        hex_decoding(text, width)->Err_0->c == text[hex_decoding(
            text,
            width,
        )->Err_0->index as int] as char,
{
    lemma_some_bad_digit_is_first(text, text.len() as int);
}

} // verus!
