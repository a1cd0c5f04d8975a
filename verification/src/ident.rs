//! The identifier codec: a fixed-width binary identifier has a canonical
//! 40-character lowercase hexadecimal textual form.
//!
//! [`encode`] is total over all byte values and deterministic; its output
//! length is exactly twice the input length. [`decode`] accepts exactly the
//! 40-character strings made of hex digits and rejects everything else with
//! [`Error::InvalidArguments`]. The two round-trip laws are proved below:
//! decoding an encoding gives the bytes back, and encoding a decoding gives
//! the lowercase form of the text back.

use vstd::prelude::*;

use crate::status::Error;

verus! {

/// Width of a binary identifier, in bytes.
pub const ID_BYTES: usize = 20;

/// Length of the textual form of an identifier: two hex digits per byte.
pub const ID_HEX_CHARS: usize = 40;

/// The lowercase hex digit for a value below sixteen.
pub open spec fn hex_char(n: u8) -> char {
    if n == 0 {
        '0'
    } else if n == 1 {
        '1'
    } else if n == 2 {
        '2'
    } else if n == 3 {
        '3'
    } else if n == 4 {
        '4'
    } else if n == 5 {
        '5'
    } else if n == 6 {
        '6'
    } else if n == 7 {
        '7'
    } else if n == 8 {
        '8'
    } else if n == 9 {
        '9'
    } else if n == 10 {
        'a'
    } else if n == 11 {
        'b'
    } else if n == 12 {
        'c'
    } else if n == 13 {
        'd'
    } else if n == 14 {
        'e'
    } else {
        'f'
    }
}

/// Whether a character is a lowercase hex digit.
pub open spec fn is_lower_hex_digit(c: char) -> bool {
    ('0' <= c && c <= '9') || ('a' <= c && c <= 'f')
}

/// Whether a character is a hex digit, either case.
pub open spec fn is_hex_digit(c: char) -> bool {
    is_lower_hex_digit(c) || ('A' <= c && c <= 'F')
}

/// The value of a hex digit; zero for any other character.
pub open spec fn hex_val(c: char) -> u8 {
    if '0' <= c && c <= '9' {
        (c as u8 - '0' as u8) as u8
    } else if 'a' <= c && c <= 'f' {
        (c as u8 - 'a' as u8 + 10) as u8
    } else if 'A' <= c && c <= 'F' {
        (c as u8 - 'A' as u8 + 10) as u8
    } else {
        0
    }
}

/// The lowercase hex encoding of a byte sequence: for each byte, its high
/// digit then its low digit.
pub open spec fn hex_encoded(b: Seq<u8>) -> Seq<char> {
    Seq::new(
        b.len() * 2,
        |i: int|
            if i % 2 == 0 {
                hex_char(b[i / 2] / 16)
            } else {
                hex_char(b[i / 2] % 16)
            },
    )
}

/// The bytes read from a hex text, two digits per byte.
pub open spec fn hex_decoded(s: Seq<char>) -> Seq<u8> {
    Seq::new(s.len() / 2, |i: int| (hex_val(s[2 * i]) * 16 + hex_val(s[2 * i + 1])) as u8)
}

/// Whether a text is a well-formed identifier: exactly forty hex digits.
pub open spec fn valid_id_hex(s: Seq<char>) -> bool {
    s.len() == ID_HEX_CHARS && (forall|i: int| 0 <= i < s.len() ==> is_hex_digit(#[trigger] s[i]))
}

/// A hex digit's value is below sixteen, and the two digit spec functions
/// invert each other on their domains.
pub proof fn lemma_hex_digit_inverse(n: u8, c: char)
    ensures
        n < 16 ==> hex_val(hex_char(n)) == n && is_lower_hex_digit(hex_char(n)),
        is_hex_digit(c) ==> hex_val(c) < 16,
        is_lower_hex_digit(c) ==> hex_char(hex_val(c)) == c,
{
}

fn hex_digit_str(n: u8) -> (r: &'static str)
    requires
        n < 16,
    ensures
        r@.len() == 1,
        r@[0] == hex_char(n),
{
    proof {
        reveal_strlit("0");
        reveal_strlit("1");
        reveal_strlit("2");
        reveal_strlit("3");
        reveal_strlit("4");
        reveal_strlit("5");
        reveal_strlit("6");
        reveal_strlit("7");
        reveal_strlit("8");
        reveal_strlit("9");
        reveal_strlit("a");
        reveal_strlit("b");
        reveal_strlit("c");
        reveal_strlit("d");
        reveal_strlit("e");
        reveal_strlit("f");
    }
    match n {
        0 => "0",
        1 => "1",
        2 => "2",
        3 => "3",
        4 => "4",
        5 => "5",
        6 => "6",
        7 => "7",
        8 => "8",
        9 => "9",
        10 => "a",
        11 => "b",
        12 => "c",
        13 => "d",
        14 => "e",
        _ => "f",
    }
}

/// Encode a binary identifier as lowercase hex text: deterministic, total
/// over all byte values, two output characters per input byte.
pub fn encode(bytes: &[u8]) -> (s: String)
    ensures
        s@ == hex_encoded(bytes@),
{
    let mut s = String::new();
    let mut i: usize = 0;
    while i < bytes.len()
        invariant
            i <= bytes@.len(),
            s@ =~= hex_encoded(bytes@.subrange(0, i as int)),
        decreases bytes@.len() - i,
    {
        let b = bytes[i];
        s.append(hex_digit_str(b / 16));
        s.append(hex_digit_str(b % 16));
        i = i + 1;
        proof {
            let prefix = bytes@.subrange(0, i as int);
            assert forall|j: int| 0 <= j < prefix.len() * 2 implies s@[j] == hex_encoded(prefix)[j]
            by {
                if j < (i - 1) * 2 {
                    assert(prefix.subrange(0, i - 1) =~= bytes@.subrange(0, i - 1));
                }
            }
            assert(s@ =~= hex_encoded(prefix));
        }
    }
    proof {
        assert(bytes@.subrange(0, bytes@.len() as int) =~= bytes@);
    }
    s
}

fn hex_val_of(c: char) -> (r: Option<u8>)
    ensures
        r is Some <==> is_hex_digit(c),
        r is Some ==> r->0 == hex_val(c) && r->0 < 16,
{
    if '0' <= c && c <= '9' {
        Some(c as u8 - '0' as u8)
    } else if 'a' <= c && c <= 'f' {
        Some(c as u8 - 'a' as u8 + 10)
    } else if 'A' <= c && c <= 'F' {
        Some(c as u8 - 'A' as u8 + 10)
    } else {
        None
    }
}

/// Decode an identifier's textual form back to its binary form.
///
/// Succeeds exactly on forty-character texts made of hex digits; any other
/// input is rejected with [`Error::InvalidArguments`]. On success the result
/// holds the twenty decoded bytes.
pub fn decode(s: &str) -> (r: Result<Vec<u8>, Error>)
    ensures
        r is Ok <==> valid_id_hex(s@),
        r is Ok ==> r->Ok_0@ == hex_decoded(s@) && r->Ok_0@.len() == ID_BYTES,
        r is Err ==> r->Err_0 == Error::InvalidArguments,
{
    let n = s.unicode_len();
    if n != ID_HEX_CHARS {
        return Err(Error::InvalidArguments);
    }
    let mut out: Vec<u8> = Vec::new();
    let mut i: usize = 0;
    while i < ID_BYTES
        invariant
            i <= ID_BYTES,
            s@.len() == ID_HEX_CHARS,
            out@.len() == i,
            forall|j: int| 0 <= j < 2 * i ==> is_hex_digit(#[trigger] s@[j]),
            forall|j: int| 0 <= j < i ==> out@[j] == hex_decoded(s@)[j],
        decreases ID_BYTES - i,
    {
        let hi = match hex_val_of(s.get_char(2 * i)) {
            Some(v) => v,
            None => {
                return Err(Error::InvalidArguments);
            },
        };
        let lo = match hex_val_of(s.get_char(2 * i + 1)) {
            Some(v) => v,
            None => {
                return Err(Error::InvalidArguments);
            },
        };
        out.push(hi * 16 + lo);
        i = i + 1;
    }
    proof {
        assert(out@ =~= hex_decoded(s@));
    }
    Ok(out)
}

/// Law: decoding inverts encoding. For every byte sequence, the encoding is
/// well-formed lowercase hex of twice the length, and decoding it gives the
/// bytes back. In particular every twenty-byte identifier round-trips.
pub proof fn lemma_decode_encode(b: Seq<u8>)
    ensures
        hex_encoded(b).len() == b.len() * 2,
        forall|i: int|
            0 <= i < hex_encoded(b).len() ==> is_lower_hex_digit(#[trigger] hex_encoded(b)[i]),
        hex_decoded(hex_encoded(b)) == b,
{
    let e = hex_encoded(b);
    assert forall|i: int| 0 <= i < e.len() implies is_lower_hex_digit(#[trigger] e[i]) by {
        lemma_hex_digit_inverse((b[i / 2] / 16) as u8, 'x');
        lemma_hex_digit_inverse((b[i / 2] % 16) as u8, 'x');
    }
    assert forall|i: int| 0 <= i < b.len() implies hex_decoded(e)[i] == b[i] by {
        lemma_hex_digit_inverse((b[i] / 16) as u8, 'x');
        lemma_hex_digit_inverse((b[i] % 16) as u8, 'x');
        assert(e[2 * i] == hex_char(b[i] / 16));
        assert(e[2 * i + 1] == hex_char(b[i] % 16));
        assert(b[i] / 16 * 16 + b[i] % 16 == b[i]) by (nonlinear_arith);
    }
    assert(hex_decoded(e) =~= b);
}

/// Law: encoding inverts decoding on lowercase hex text. For every
/// even-length sequence of lowercase hex digits, encoding its decoding gives
/// the text back unchanged. In particular every well-formed lowercase
/// forty-character identifier text round-trips.
pub proof fn lemma_encode_decode(s: Seq<char>)
    requires
        s.len() % 2 == 0,
        forall|i: int| 0 <= i < s.len() ==> is_lower_hex_digit(#[trigger] s[i]),
    ensures
        hex_encoded(hex_decoded(s)) == s,
{
    let d = hex_decoded(s);
    assert(d.len() * 2 == s.len());
    assert forall|i: int| 0 <= i < s.len() implies hex_encoded(d)[i] == s[i] by {
        let j = i / 2;
        lemma_hex_digit_inverse(0, s[2 * j]);
        lemma_hex_digit_inverse(0, s[2 * j + 1]);
        let hi = hex_val(s[2 * j]);
        let lo = hex_val(s[2 * j + 1]);
        assert(d[j] == (hi * 16 + lo) as u8);
        assert(hi < 16 && lo < 16);
        assert((hi * 16 + lo) / 16 == hi && (hi * 16 + lo) % 16 == lo) by (nonlinear_arith)
            requires
                hi < 16 && lo < 16,
        ;
        if i % 2 == 0 {
            assert(i == 2 * j);
        } else {
            assert(i == 2 * j + 1);
        }
    }
    assert(hex_encoded(d) =~= s);
}

} // verus!
