use itertools::Itertools;
use crate::utils::text::push_char;
use vstd::prelude::*;
use vstd::string::StringSliceAdditionalSpecFns;
use vstd::utf8::{encode_utf8, is_ascii_chars, is_ascii_chars_encode_utf8};

verus! {

/// Why stored settings text could not be turned back into bytes.
#[derive(Clone, Copy, Debug, PartialEq, Eq, Structural)]
pub enum DecodeError {
    /// The text is an odd number of bytes long.
    InvalidLength,
    /// A pair of characters is not two hexadecimal digits.
    InvalidCharacter,
}

/// Lowercase hexadecimal digit for a value below 16.
pub open spec fn hex_char(n: int) -> char {
    if n < 10 {
        (48 + n) as char
    } else {
        (97 + n - 10) as char
    }
}

/// Value of a hexadecimal digit, in either case.
pub open spec fn hex_value(c: char) -> Option<int> {
    if '0' <= c && c <= '9' {
        Some(c as int - 48)
    } else if 'a' <= c && c <= 'f' {
        Some(c as int - 97 + 10)
    } else if 'A' <= c && c <= 'F' {
        Some(c as int - 65 + 10)
    } else {
        None
    }
}

/// Each byte becomes its high and then its low hexadecimal digit.
pub open spec fn spec_encode(data: Seq<u8>) -> Seq<char> {
    Seq::new(
        2 * data.len(),
        |i: int|
            if i % 2 == 0 {
                hex_char(data[i / 2] as int / 16)
            } else {
                hex_char(data[i / 2] as int % 16)
            },
    )
}

/// Both characters of the `i`-th pair are hexadecimal digits.
pub open spec fn pair_valid(chars: Seq<char>, i: int) -> bool {
    hex_value(chars[2 * i]) is Some && hex_value(chars[2 * i + 1]) is Some
}

/// The byte spelled by the `i`-th pair of digits.
pub open spec fn pair_byte(chars: Seq<char>, i: int) -> u8 {
    (hex_value(chars[2 * i]).unwrap() * 16 + hex_value(chars[2 * i + 1]).unwrap()) as u8
}

/// Decoding of text made of `chars` that is `byte_len` bytes long: an odd
/// byte length is refused; otherwise characters are taken in pairs (a
/// trailing unpaired character is ignored) and each pair must be two
/// hexadecimal digits.
pub open spec fn spec_decode(chars: Seq<char>, byte_len: nat) -> Result<Seq<u8>, DecodeError> {
    if byte_len % 2 != 0 {
        Err(DecodeError::InvalidLength)
    } else if forall|i: int| 0 <= i < chars.len() / 2 ==> #[trigger] pair_valid(chars, i) {
        Ok(Seq::new(chars.len() / 2, |i: int| pair_byte(chars, i)))
    } else {
        Err(DecodeError::InvalidCharacter)
    }
}

/// Groups the characters of `s` into consecutive non-overlapping pairs with
/// itertools' `tuples`; a trailing unpaired character is left out.
#[verifier::external_body]
fn char_pairs(s: &str) -> (r: Vec<(char, char)>)
    ensures
        r@.len() == s@.len() / 2,
        forall|i: int| 0 <= i < r@.len() ==> #[trigger] r@[i] == (s@[2 * i], s@[2 * i + 1]),
{
    s.chars().tuples().collect()
}

fn digit_char(n: u8) -> (c: char)
    requires
        n < 16,
    ensures
        c == hex_char(n as int),
{
    if n < 10 {
        (48 + n) as char
    } else {
        (97 + n - 10) as char
    }
}

fn digit_value(c: char) -> (r: Option<u8>)
    ensures
        match hex_value(c) {
            Some(v) => r == Some(v as u8) && v < 16,
            None => r is None,
        },
{
    if '0' <= c && c <= '9' {
        Some((c as u32 - 48) as u8)
    } else if 'a' <= c && c <= 'f' {
        Some((c as u32 - 97 + 10) as u8)
    } else if 'A' <= c && c <= 'F' {
        Some((c as u32 - 65 + 10) as u8)
    } else {
        None
    }
}

/// Encodes bytes as lowercase hexadecimal text, two digits per byte.
pub fn encode(data: &[u8]) -> (s: String)
    ensures
        s@ == spec_encode(data@),
{
    let mut s = String::new();
    let mut i: usize = 0;
    while i < data.len()
        invariant
            i <= data@.len(),
            s@ == spec_encode(data@.subrange(0, i as int)),
        decreases data@.len() - i,
    {
        let c = data[i];
        let ghost before = s@;
        push_char(&mut s, digit_char(c / 16));
        push_char(&mut s, digit_char(c % 16));
        assert(s@ =~= spec_encode(data@.subrange(0, i + 1)));
        i = i + 1;
    }
    assert(data@.subrange(0, data@.len() as int) =~= data@);
    s
}

/// Decodes text made by [`encode`]; fails on an odd byte length or on a
/// pair of characters that are not hexadecimal digits.
pub fn decode(data: &str) -> (r: Result<Vec<u8>, DecodeError>)
    ensures
        match r {
            Ok(v) => spec_decode(data@, data.len() as nat) == Ok::<Seq<u8>, DecodeError>(v@),
            Err(e) => spec_decode(data@, data.len() as nat) == Err::<Seq<u8>, DecodeError>(e),
        },
{
    if data.len() % 2 != 0 {
        return Err(DecodeError::InvalidLength);
    }
    let pairs = char_pairs(data);
    let mut out: Vec<u8> = Vec::new();
    let mut i: usize = 0;
    while i < pairs.len()
        invariant
            i <= pairs@.len(),
            data.len() % 2 == 0,
            pairs@.len() == data@.len() / 2,
            forall|j: int| 0 <= j < pairs@.len() ==> #[trigger] pairs@[j] == (data@[2 * j], data@[2 * j + 1]),
            out@.len() == i,
            forall|j: int| 0 <= j < i ==> #[trigger] pair_valid(data@, j),
            forall|j: int| 0 <= j < i ==> out@[j] == #[trigger] pair_byte(data@, j),
        decreases pairs@.len() - i,
    {
        let (c1, c2) = pairs[i];
        let d1 = digit_value(c1);
        let d2 = digit_value(c2);
        match (d1, d2) {
            (Some(n1), Some(n2)) => {
                assert(pair_valid(data@, i as int));
                out.push(n1 * 16 + n2);
            },
            _ => {
                assert(hex_value(c1) is None || hex_value(c2) is None);
                assert(!pair_valid(data@, i as int));
                return Err(DecodeError::InvalidCharacter);
            },
        }
        i = i + 1;
    }
    assert(out@ =~= Seq::new(data@.len() / 2, |i: int| pair_byte(data@, i)));
    Ok(out)
}

/// Encoded text is plain ASCII, so its byte length equals its length.
pub proof fn encode_is_ascii(data: Seq<u8>)
    ensures
        is_ascii_chars(spec_encode(data)),
        encode_utf8(spec_encode(data)).len() == 2 * data.len(),
{
    assert forall|i: int| 0 <= i < spec_encode(data).len() implies '\0' <= #[trigger] spec_encode(
        data,
    )[i] <= '\u{7f}' by {
        let b = data[i / 2] as int;
        assert(0 <= b / 16 < 16);
        assert(0 <= b % 16 < 16);
    }
    is_ascii_chars_encode_utf8(spec_encode(data));
}

/// Decoding undoes encoding: text produced from `data` decodes to `data`.
pub proof fn decode_encode_roundtrip(data: Seq<u8>)
    ensures
        spec_decode(spec_encode(data), encode_utf8(spec_encode(data)).len()) == Ok::<
            Seq<u8>,
            DecodeError,
        >(data),
{
    encode_is_ascii(data);
    let chars = spec_encode(data);
    assert forall|i: int| 0 <= i < chars.len() / 2 implies #[trigger] pair_valid(chars, i) by {
        let b = data[i] as int;
        assert(chars[2 * i] == hex_char(b / 16));
        assert(chars[2 * i + 1] == hex_char(b % 16));
    }
    assert forall|i: int| 0 <= i < data.len() implies #[trigger] pair_byte(chars, i) == data[i] by {
        let b = data[i] as int;
        assert(chars[2 * i] == hex_char(b / 16));
        assert(chars[2 * i + 1] == hex_char(b % 16));
        assert(hex_value(hex_char(b / 16)) == Some(b / 16));
        assert(hex_value(hex_char(b % 16)) == Some(b % 16));
    }
    assert(Seq::new(chars.len() / 2, |i: int| pair_byte(chars, i)) =~= data);
}

/// On ASCII text, decoding fails exactly when the text has an odd length or
/// holds a character that is not a hexadecimal digit; an odd length is
/// reported as such.
pub proof fn decode_ascii_errors(chars: Seq<char>)
    requires
        is_ascii_chars(chars),
    ensures
        spec_decode(chars, encode_utf8(chars).len()) is Err <==> (chars.len() % 2 == 1 || exists|j: int|
            0 <= j < chars.len() && #[trigger] hex_value(chars[j]) is None),
        chars.len() % 2 == 1 ==> spec_decode(chars, encode_utf8(chars).len()) == Err::<
            Seq<u8>,
            DecodeError,
        >(DecodeError::InvalidLength),
{
    is_ascii_chars_encode_utf8(chars);
    if chars.len() % 2 == 0 {
        if exists|j: int| 0 <= j < chars.len() && #[trigger] hex_value(chars[j]) is None {
            let j = choose|j: int| 0 <= j < chars.len() && #[trigger] hex_value(chars[j]) is None;
            let i = j / 2;
            assert(j == 2 * i || j == 2 * i + 1);
            assert(!pair_valid(chars, i));
        }
        if !(forall|i: int| 0 <= i < chars.len() / 2 ==> #[trigger] pair_valid(chars, i)) {
            let i = choose|i: int| 0 <= i < chars.len() / 2 && !#[trigger] pair_valid(chars, i);
            if hex_value(chars[2 * i]) is None {
                assert(hex_value(chars[2 * i]) is None);
            } else {
                assert(hex_value(chars[2 * i + 1]) is None);
            }
        }
    }
}

} // verus!
