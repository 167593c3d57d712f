use vstd::prelude::*;
use vstd::utf8::{decode_utf8, encode_utf8, encode_utf8_decode_utf8, valid_utf8};

verus! {

/// Whether two strings hold the same characters.
pub fn str_equal(a: &str, b: &str) -> (r: bool)
    ensures
        r == (a@ == b@),
{
    let x = a.as_bytes();
    let y = b.as_bytes();
    proof {
        encode_utf8_decode_utf8(a@);
        encode_utf8_decode_utf8(b@);
    }
    if x.len() != y.len() {
        return false;
    }
    let mut i: usize = 0;
    while i < x.len()
        invariant
            x@ == encode_utf8(a@),
            y@ == encode_utf8(b@),
            x@.len() == y@.len(),
            i <= x@.len(),
            forall|j: int| 0 <= j < i ==> x@[j] == y@[j],
        decreases x@.len() - i,
    {
        if x[i] != y[i] {
            return false;
        }
        i = i + 1;
    }
    assert(x@ =~= y@);
    true
}

/// The UTF-8 bytes of a string.
pub fn str_bytes(s: &str) -> (r: Vec<u8>)
    ensures
        r@ == encode_utf8(s@),
{
    let bytes = s.as_bytes();
    let mut out: Vec<u8> = Vec::new();
    let mut i: usize = 0;
    while i < bytes.len()
        invariant
            i <= bytes@.len(),
            out@ == bytes@.subrange(0, i as int),
        decreases bytes@.len() - i,
    {
        out.push(bytes[i]);
        i = i + 1;
        assert(out@ =~= bytes@.subrange(0, i as int));
    }
    assert(out@ =~= bytes@);
    out
}

/// The text that lossy UTF-8 decoding gives for a byte string.
pub uninterp spec fn utf8_lossy(bytes: Seq<u8>) -> Seq<char>;

/// Relies on `String::from_utf8_lossy`: a function of the bytes alone, which
/// decodes valid UTF-8 unchanged.
#[verifier::external_body]
pub(crate) fn lossy_string(bytes: &[u8]) -> (r: String)
    ensures
        r@ == utf8_lossy(bytes@),
        valid_utf8(bytes@) ==> r@ == decode_utf8(bytes@),
{
    String::from_utf8_lossy(bytes).into_owned()
}

/// The lowercase hex digit for a value below 16.
pub open spec fn hex_digit(n: u8) -> char {
    if n < 10 {
        ((48 + n) as u8) as char
    } else {
        ((87 + n) as u8) as char
    }
}

/// Two lowercase hex digits per byte, high half first.
pub open spec fn hex_of(b: Seq<u8>) -> Seq<char>
    decreases b.len(),
{
    if b.len() == 0 {
        Seq::empty()
    } else {
        seq![hex_digit(b[0] / 16), hex_digit(b[0] % 16)] + hex_of(b.drop_first())
    }
}

/// The value of a hex digit in either case, or -1.
pub open spec fn hex_value(c: u8) -> int {
    if 48 <= c <= 57 {
        c - 48
    } else if 97 <= c <= 102 {
        c - 87
    } else if 65 <= c <= 70 {
        c - 55
    } else {
        -1
    }
}

/// An even number of bytes, each a hex digit.
pub open spec fn is_hex_text(s: Seq<u8>) -> bool {
    &&& s.len() % 2 == 0
    &&& forall|i: int| 0 <= i < s.len() ==> hex_value(#[trigger] s[i]) >= 0
}

pub open spec fn hex_decoded(s: Seq<u8>) -> Seq<u8> {
    Seq::new(
        s.len() / 2,
        |i: int| (16 * hex_value(s[2 * i]) + hex_value(s[2 * i + 1])) as u8,
    )
}

/// Relies on `hex::encode`: two lowercase digits for each byte.
#[verifier::external_body]
pub(crate) fn hex_encode(bytes: &Vec<u8>) -> (r: String)
    ensures
        r@ == hex_of(bytes@),
{
    hex::encode(bytes)
}

/// Relies on `hex::decode`: it succeeds exactly on an even number of hex
/// digits (either case) and then gives one byte for each pair.
#[verifier::external_body]
pub(crate) fn hex_decode(text: &String) -> (r: Option<Vec<u8>>)
    ensures
        r is Some <==> is_hex_text(encode_utf8(text@)),
        r matches Some(b) ==> b@ == hex_decoded(encode_utf8(text@)),
{
    hex::decode(text).ok()
}

} // verus!
