//! Byte-level text encodings used by the canonical parameter grammar:
//! decimal rendering of integers, lowercase/uppercase hex digits, and
//! percent-encoding of arbitrary bytes.

use vstd::prelude::*;

verus! {

/// The byte for the decimal digit `d`.
pub open spec fn dec_digit(d: int) -> u8
    recommends
        0 <= d < 10,
{
    (0x30 + d) as u8
}

/// The decimal rendering of a non-negative integer, most significant digit first.
pub open spec fn dec_of(n: int) -> Seq<u8>
    recommends
        n >= 0,
    decreases n,
{
    if n < 10 {
        seq![dec_digit(n)]
    } else {
        dec_of(n / 10).push(dec_digit(n % 10))
    }
}

/// Renders a `u64` in decimal.
pub fn u64_to_dec(n: u64) -> (r: Vec<u8>)
    ensures
        r@ == dec_of(n as int),
    decreases n,
{
    if n < 10 {
        let mut v: Vec<u8> = Vec::new();
        v.push(0x30 + (n as u8));
        proof {
            assert(v@ =~= dec_of(n as int));
        }
        v
    } else {
        let mut v = u64_to_dec(n / 10);
        v.push(0x30 + ((n % 10) as u8));
        proof {
            assert(v@ =~= dec_of(n as int));
        }
        v
    }
}

/// The lowercase hex digit for a value below 16.
pub open spec fn hex_lower_digit(d: int) -> u8
    recommends
        0 <= d < 16,
{
    if d < 10 {
        (0x30 + d) as u8
    } else {
        (0x57 + d) as u8
    }
}

/// The uppercase hex digit for a value below 16.
pub open spec fn hex_upper_digit(d: int) -> u8
    recommends
        0 <= d < 16,
{
    if d < 10 {
        (0x30 + d) as u8
    } else {
        (0x37 + d) as u8
    }
}

/// The two lowercase hex digits of one byte.
pub open spec fn hex_pair(b: u8) -> Seq<u8> {
    seq![hex_lower_digit(b as int / 16), hex_lower_digit(b as int % 16)]
}

/// The lowercase hex rendering of a byte string, two digits per byte.
pub open spec fn hex_of(bytes: Seq<u8>) -> Seq<u8> {
    bytes.flat_map(|b: u8| hex_pair(b))
}

/// Renders bytes as lowercase hex, two digits per byte.
pub fn to_hex(bytes: &[u8]) -> (r: Vec<u8>)
    ensures
        r@ == hex_of(bytes@),
{
    let mut r: Vec<u8> = Vec::new();
    let mut i: usize = 0;
    proof {
        assert(bytes@.take(0).flat_map(|b: u8| hex_pair(b)) =~= Seq::<u8>::empty());
    }
    while i < bytes.len()
        invariant
            i <= bytes@.len(),
            r@ == bytes@.take(i as int).flat_map(|b: u8| hex_pair(b)),
        decreases bytes@.len() - i,
    {
        let b = bytes[i];
        r.push(if b / 16 < 10 {
            0x30 + b / 16
        } else {
            0x57 + b / 16
        });
        r.push(if b % 16 < 10 {
            0x30 + b % 16
        } else {
            0x57 + b % 16
        });
        proof {
            bytes@.lemma_flat_map_take_append(|b: u8| hex_pair(b), i as int);
            assert(r@ =~= bytes@.take(i as int + 1).flat_map(|b: u8| hex_pair(b)));
        }
        i = i + 1;
    }
    proof {
        assert(bytes@.take(bytes@.len() as int) =~= bytes@);
    }
    r
}

/// Bytes that the canonical query grammar passes through unescaped:
/// ASCII letters, digits, `-`, `.`, `_` and `~`.
pub open spec fn is_unreserved(b: u8) -> bool {
    (0x41 <= b <= 0x5A) || (0x61 <= b <= 0x7A) || (0x30 <= b <= 0x39) || b == 0x2D || b == 0x2E
        || b == 0x5F || b == 0x7E
}

/// The percent-encoding of one byte: itself if unreserved, else `%XX`
/// with uppercase hex digits.
pub open spec fn pct_byte(b: u8) -> Seq<u8> {
    if is_unreserved(b) {
        seq![b]
    } else {
        seq![0x25u8, hex_upper_digit(b as int / 16), hex_upper_digit(b as int % 16)]
    }
}

/// The percent-encoding of a byte string.
pub open spec fn pct_of(bytes: Seq<u8>) -> Seq<u8> {
    bytes.flat_map(|b: u8| pct_byte(b))
}

/// Tests whether a byte is passed through unescaped by percent-encoding.
pub fn is_unreserved_byte(b: u8) -> (r: bool)
    ensures
        r == is_unreserved(b),
{
    (0x41 <= b && b <= 0x5A) || (0x61 <= b && b <= 0x7A) || (0x30 <= b && b <= 0x39) || b == 0x2D
        || b == 0x2E || b == 0x5F || b == 0x7E
}

/// Percent-encodes a byte string.
pub fn pct_encode(bytes: &[u8]) -> (r: Vec<u8>)
    ensures
        r@ == pct_of(bytes@),
{
    let mut r: Vec<u8> = Vec::new();
    let mut i: usize = 0;
    proof {
        assert(bytes@.take(0).flat_map(|b: u8| pct_byte(b)) =~= Seq::<u8>::empty());
    }
    while i < bytes.len()
        invariant
            i <= bytes@.len(),
            r@ == bytes@.take(i as int).flat_map(|b: u8| pct_byte(b)),
        decreases bytes@.len() - i,
    {
        let b = bytes[i];
        if is_unreserved_byte(b) {
            r.push(b);
        } else {
            r.push(0x25);
            r.push(if b / 16 < 10 {
                0x30 + b / 16
            } else {
                0x37 + b / 16
            });
            r.push(if b % 16 < 10 {
                0x30 + b % 16
            } else {
                0x37 + b % 16
            });
        }
        proof {
            bytes@.lemma_flat_map_take_append(|b: u8| pct_byte(b), i as int);
            assert(r@ =~= bytes@.take(i as int + 1).flat_map(|b: u8| pct_byte(b)));
        }
        i = i + 1;
    }
    proof {
        assert(bytes@.take(bytes@.len() as int) =~= bytes@);
    }
    r
}

/// Holds when every byte is ASCII.
pub open spec fn all_ascii(s: Seq<u8>) -> bool {
    forall|i: int| 0 <= i < s.len() ==> s[i] < 0x80
}

/// Flat-mapping with a function whose image is ASCII yields ASCII bytes.
pub proof fn lemma_flat_map_ascii(s: Seq<u8>, f: spec_fn(u8) -> Seq<u8>)
    requires
        forall|b: u8| all_ascii(#[trigger] f(b)),
    ensures
        all_ascii(s.flat_map(f)),
    decreases s.len(),
{
    if s.len() == 0 {
        assert(s.flat_map(f) =~= Seq::<u8>::empty());
    } else {
        let pre = s.drop_last();
        lemma_flat_map_ascii(pre, f);
        pre.lemma_flat_map_push(f, s.last());
        assert(pre.push(s.last()) =~= s);
        assert forall|i: int| 0 <= i < s.flat_map(f).len() implies s.flat_map(f)[i]
            < 0x80 by {
            assert(s.flat_map(f) == pre.flat_map(f) + f(s.last()));
            if i < pre.flat_map(f).len() {
                assert(s.flat_map(f)[i] == pre.flat_map(f)[i]);
            } else {
                assert(s.flat_map(f)[i] == f(s.last())[i - pre.flat_map(f).len()]);
            }
        }
    }
}

/// The hex rendering of any byte string is ASCII.
pub proof fn lemma_hex_ascii(bytes: Seq<u8>)
    ensures
        all_ascii(hex_of(bytes)),
{
    lemma_flat_map_ascii(bytes, |b: u8| hex_pair(b));
}

/// The hex rendering has two digits per byte.
pub proof fn lemma_hex_len(bytes: Seq<u8>)
    ensures
        hex_of(bytes).len() == 2 * bytes.len(),
    decreases bytes.len(),
{
    if bytes.len() == 0 {
        assert(bytes.flat_map(|b: u8| hex_pair(b)) =~= Seq::<u8>::empty());
    } else {
        let pre = bytes.drop_last();
        lemma_hex_len(pre);
        pre.lemma_flat_map_push(|b: u8| hex_pair(b), bytes.last());
        assert(pre.push(bytes.last()) =~= bytes);
    }
}

/// Builds a `String` from bytes that are all ASCII.
///
/// Relies on `String::from_utf8`: ASCII bytes are valid UTF-8, each byte
/// becoming the character with the same code point.
#[verifier::external_body]
pub fn ascii_string_of(bytes: Vec<u8>) -> (r: String)
    requires
        forall|i: int| 0 <= i < bytes@.len() ==> bytes@[i] < 0x80,
    ensures
        r@ == bytes@.map_values(|b: u8| b as char),
{
    match String::from_utf8(bytes) {
        Ok(s) => s,
        Err(_) => String::new(),
    }
}

/// Names the lowercase form of a character sequence; the result depends
/// on the characters alone.
pub uninterp spec fn lower_of(s: Seq<char>) -> Seq<char>;

/// Relies on `str::to_lowercase`: the result is the Unicode lowercase
/// mapping of the input, a function of the characters alone.
#[verifier::external_body]
pub fn lowercase(s: &str) -> (r: String)
    ensures
        r@ == lower_of(s@),
{
    s.to_lowercase()
}

} // verus!
