//! Hexadecimal text, as the configuration and the header sources give it.
use crate::bytes::decimal;
use vstd::prelude::*;

verus! {

/// Why a text is not hexadecimal.
#[derive(Clone, Copy, Debug, PartialEq, Eq, Structural)]
pub enum HexError {
    /// The number of digits is odd.
    OddLength,
    /// A byte that is no digit, and where it stands.
    InvalidHexCharacter { c: char, index: usize },
    /// The text does not fill the container it is decoded into.
    InvalidStringLength,
}

/// Whether a byte is a hexadecimal digit, of either case.
pub open spec fn is_hex_digit(c: u8) -> bool {
    ||| 0x30 <= c <= 0x39
    ||| 0x41 <= c <= 0x46
    ||| 0x61 <= c <= 0x66
}

/// The value of a hexadecimal digit.
pub open spec fn hex_digit_value(c: u8) -> int {
    if 0x30 <= c <= 0x39 {
        c - 0x30
    } else if 0x41 <= c <= 0x46 {
        c - 0x41 + 10
    } else {
        c - 0x61 + 10
    }
}

/// Whether `i` is the first place of `text` that holds no digit.
pub open spec fn is_first_bad_digit(text: Seq<u8>, i: int) -> bool {
    &&& 0 <= i < text.len()
    &&& !is_hex_digit(text[i])
    &&& forall|j: int| 0 <= j < i ==> is_hex_digit(#[trigger] text[j])
}

/// The bytes that a hexadecimal text stands for, or why it stands for none.
pub open spec fn hex_decoded(text: Seq<u8>) -> Result<Seq<u8>, HexError> {
    if text.len() % 2 != 0 {
        Err(HexError::OddLength)
    } else if exists|i: int| is_first_bad_digit(text, i) {
        let i = choose|i: int| is_first_bad_digit(text, i);
        Err(HexError::InvalidHexCharacter { c: text[i] as char, index: i as usize })
    } else {
        Ok(
            Seq::new(
                text.len() / 2,
                |i: int|
                    (16 * hex_digit_value(text[2 * i]) + hex_digit_value(text[2 * i + 1])) as u8,
            ),
        )
    }
}

/// The lower-case digit of a value below 16.
pub open spec fn hex_digit(value: int) -> char {
    if value < 10 {
        (0x30 + value) as char
    } else {
        (0x61 + value - 10) as char
    }
}

/// The lower-case hexadecimal text of a byte string.
pub open spec fn hex_encoded(data: Seq<u8>) -> Seq<char> {
    Seq::new(
        2 * data.len(),
        |i: int|
            hex_digit(
                if i % 2 == 0 {
                    data[i / 2] as int / 16
                } else {
                    data[i / 2] as int % 16
                },
            ),
    )
}

/// Decodes a hexadecimal text with `hex::decode`. The claim: an odd number of
/// bytes is refused first; else the first byte that is no digit is named with
/// its place; else each two digits give one byte, the higher digit first.
#[verifier::external_body]
pub(crate) fn hex_decode(text: &[u8]) -> (r: Result<Vec<u8>, HexError>)
    ensures
        match (r, hex_decoded(text@)) {
            (Ok(v), Ok(bytes)) => v@ == bytes,
            (Err(e), Err(f)) => e == f,
            _ => false,
        },
{
    hex::decode(text).map_err(
        |e| match e {
            hex::FromHexError::OddLength => HexError::OddLength,
            hex::FromHexError::InvalidHexCharacter { c, index } => HexError::InvalidHexCharacter {
                c,
                index,
            },
            hex::FromHexError::InvalidStringLength => HexError::InvalidStringLength,
        },
    )
}

/// Writes a byte string as text with `hex::encode`. The claim: two lower-case
/// digits for each byte, the higher digit first.
#[verifier::external_body]
pub(crate) fn hex_encode(data: &[u8]) -> (r: String)
    ensures
        r@ == hex_encoded(data@),
{
    hex::encode(data)
}

/// A character in quotes, with escapes, as it is shown for inspection.
pub uninterp spec fn quoted(c: char) -> Seq<char>;

/// The text that says why a text is not hexadecimal.
pub open spec fn hex_text(e: HexError) -> Seq<char> {
    match e {
        HexError::OddLength => "Odd number of digits"@,
        HexError::InvalidHexCharacter { c, index } => "Invalid character "@ + quoted(c)
            + " at position "@ + decimal(index as nat),
        HexError::InvalidStringLength => "Invalid string length"@,
    }
}

/// Writes an error with `to_string` of `hex::FromHexError`. The claim: a fixed
/// text for two of the errors, and for a byte that is no digit the character as
/// `char`'s `Debug` shows it and the place in decimal, between fixed texts.
#[verifier::external_body]
pub(crate) fn hex_error_text(e: &HexError) -> (r: String)
    ensures
        match *e {
            HexError::OddLength => r@ == "Odd number of digits"@,
            HexError::InvalidHexCharacter { c, index } => r@ == "Invalid character "@ + quoted(c)
                + " at position "@ + decimal(index as nat),
            HexError::InvalidStringLength => r@ == "Invalid string length"@,
        },
{
    let e = match *e {
        HexError::OddLength => hex::FromHexError::OddLength,
        HexError::InvalidHexCharacter { c, index } => hex::FromHexError::InvalidHexCharacter {
            c,
            index,
        },
        HexError::InvalidStringLength => hex::FromHexError::InvalidStringLength,
    };
    e.to_string()
}

/// A text has at most one first place without a digit.
pub proof fn law_first_bad_digit_unique(text: Seq<u8>, i: int, j: int)
    requires
        is_first_bad_digit(text, i),
        is_first_bad_digit(text, j),
    ensures
        i == j,
{
    if i < j {
        assert(is_hex_digit(text[i]));
    } else if j < i {
        assert(is_hex_digit(text[j]));
    }
}

/// What was written as hexadecimal text is read back unchanged.
pub proof fn law_hex_read_back(data: Seq<u8>)
    ensures
        hex_decoded(hex_encoded(data).map_values(|c: char| c as u8)) == Ok::<Seq<u8>, HexError>(
            data,
        ),
{
    let text = hex_encoded(data).map_values(|c: char| c as u8);
    assert forall|j: int| 0 <= j < text.len() implies is_hex_digit(#[trigger] text[j])
        && hex_digit_value(text[j]) == (if j % 2 == 0 {
        data[j / 2] as int / 16
    } else {
        data[j / 2] as int % 16
    }) by {
        let value = if j % 2 == 0 {
            data[j / 2] as int / 16
        } else {
            data[j / 2] as int % 16
        };
        assert(0 <= value < 16);
        assert(hex_encoded(data)[j] == hex_digit(value));
    }
    assert forall|i: int| !is_first_bad_digit(text, i) by {}
    let bytes = Seq::new(
        text.len() / 2,
        |i: int| (16 * hex_digit_value(text[2 * i]) + hex_digit_value(text[2 * i + 1])) as u8,
    );
    assert forall|i: int| 0 <= i < bytes.len() implies bytes[i] == data[i] by {
        assert(is_hex_digit(text[2 * i]) && is_hex_digit(text[2 * i + 1]));
        assert((2 * i) / 2 == i && (2 * i + 1) / 2 == i);
    }
    assert(bytes =~= data);
}

} // verus!
