use vstd::prelude::*;
use vstd::string::*;
use vstd::utf8::{decode_utf8, encode_utf8, valid_utf8};

verus! {

/// The byte of `%`.
pub const PERCENT: u8 = 37;

/// The value of an ASCII hexadecimal digit, in either case.
pub open spec fn hex_value(b: u8) -> Option<u8> {
    if 48 <= b && b <= 57 {
        Some((b - 48) as u8)
    } else if 97 <= b && b <= 102 {
        Some((b - 87) as u8)
    } else if 65 <= b && b <= 70 {
        Some((b - 55) as u8)
    } else {
        None
    }
}

/// `b` with each `%` that two hexadecimal digits follow replaced by the byte
/// those digits write; every other byte, a lone `%` included, stays.
pub open spec fn percent_decoded(b: Seq<u8>) -> Seq<u8>
    decreases b.len(),
{
    if b.len() == 0 {
        Seq::empty()
    } else if b.len() >= 3 && b[0] == PERCENT && hex_value(b[1]) is Some && hex_value(b[2]) is Some {
        seq![(hex_value(b[1])->0 * 16 + hex_value(b[2])->0) as u8] + percent_decoded(
            b.subrange(3, b.len() as int),
        )
    } else {
        seq![b[0]] + percent_decoded(b.subrange(1, b.len() as int))
    }
}

/// The text that a percent-encoded text `s` stands for: its UTF-8 bytes,
/// percent-decoded, read back as UTF-8 (`None`: they are not UTF-8).
pub open spec fn percent_decoded_text(s: Seq<char>) -> Option<Seq<char>> {
    let b = percent_decoded(encode_utf8(s));
    if valid_utf8(b) {
        Some(decode_utf8(b))
    } else {
        None
    }
}

/// Relies on std's `String::from_utf8`: it succeeds exactly when the bytes
/// are UTF-8, and then holds the characters they encode.
#[verifier::external_body]
fn utf8_to_string(bytes: Vec<u8>) -> (r: Option<String>)
    ensures
        r is Some <==> valid_utf8(bytes@),
        r is Some ==> r->0@ == decode_utf8(bytes@),
{
    String::from_utf8(bytes).ok()
}

/// The value of an ASCII hexadecimal digit.
fn hex_digit(b: u8) -> (r: Option<u8>)
    ensures
        r == hex_value(b),
{
    if 48 <= b && b <= 57 {
        Some(b - 48)
    } else if 97 <= b && b <= 102 {
        Some(b - 87)
    } else if 65 <= b && b <= 70 {
        Some(b - 55)
    } else {
        None
    }
}

/// Percent-decodes bytes.
pub fn percent_decode(b: &Vec<u8>) -> (r: Vec<u8>)
    ensures
        r@ == percent_decoded(b@),
{
    let n = b.len();
    let mut out: Vec<u8> = Vec::new();
    let mut i: usize = 0;
    assert(b@.subrange(0, n as int) =~= b@);
    while i < n
        invariant
            i <= n,
            n == b@.len(),
            out@ + percent_decoded(b@.subrange(i as int, n as int)) == percent_decoded(b@),
        decreases n - i,
    {
        let ghost rest = b@.subrange(i as int, n as int);
        let ghost before = out@;
        let mut step: usize = 1;
        let mut byte = b[i];
        if b[i] == PERCENT && n - i >= 3 {
            match (hex_digit(b[i + 1]), hex_digit(b[i + 2])) {
                (Some(h), Some(l)) => {
                    byte = h * 16 + l;
                    step = 3;
                },
                _ => {},
            }
        }
        proof {
            assert(rest[0] == b@[i as int]);
            if rest.len() >= 3 {
                assert(rest[1] == b@[i + 1]);
                assert(rest[2] == b@[i + 2]);
            }
            assert(rest.subrange(step as int, rest.len() as int) =~= b@.subrange(
                i + step,
                n as int,
            ));
        }
        out.push(byte);
        proof {
            assert(percent_decoded(rest) == seq![byte] + percent_decoded(
                rest.subrange(step as int, rest.len() as int),
            ));
            assert(out@ + percent_decoded(b@.subrange(i + step, n as int)) =~= before
                + percent_decoded(rest));
        }
        i += step;
    }
    out
}

/// Decodes a percent-encoded text; `None` when the decoded bytes are not UTF-8.
pub fn percent_decode_text(s: &str) -> (r: Option<String>)
    ensures
        match r {
            Some(t) => percent_decoded_text(s@) == Some(t@),
            None => percent_decoded_text(s@) is None,
        },
{
    let bytes = s.as_bytes_vec();
    let decoded = percent_decode(&bytes);
    utf8_to_string(decoded)
}

} // verus!
