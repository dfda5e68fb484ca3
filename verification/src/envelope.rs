//! The response envelope: every API response body is one JSON document
//! that either carries a structured error (`{"code": ..., "msg": ...}`),
//! a wrapped result (`{"result": ...}`), or — for the REST transport — the
//! typed payload itself. This module defines the envelope grammar over the
//! body bytes and classifies a response exactly, so that a malformed body
//! degrades to a typed error and never aborts the process.

use vstd::prelude::*;

verus! {

/// JSON insignificant whitespace.
pub open spec fn is_ws(b: u8) -> bool {
    b == 0x20 || b == 0x09 || b == 0x0A || b == 0x0D
}

/// The first index at or after `i` holding a non-whitespace byte, or the
/// end of the input.
pub open spec fn skip_ws(s: Seq<u8>, i: int) -> int
    recommends
        0 <= i <= s.len(),
    decreases s.len() - i,
{
    if i < s.len() && is_ws(s[i]) {
        skip_ws(s, i + 1)
    } else {
        i
    }
}

/// `skip_ws` stays within the input.
pub proof fn lemma_skip_ws_bounds(s: Seq<u8>, i: int)
    requires
        0 <= i <= s.len(),
    ensures
        i <= skip_ws(s, i) <= s.len(),
    decreases s.len() - i,
{
    if i < s.len() && is_ws(s[i]) {
        lemma_skip_ws_bounds(s, i + 1);
    }
}

/// The end of the input once trailing whitespace before `e` is dropped.
pub open spec fn rtrim_ws(s: Seq<u8>, e: int) -> int
    recommends
        0 <= e <= s.len(),
    decreases e,
{
    if e > 0 && is_ws(s[e - 1]) {
        rtrim_ws(s, e - 1)
    } else {
        e
    }
}

/// `rtrim_ws` stays within bounds.
pub proof fn lemma_rtrim_ws_bounds(s: Seq<u8>, e: int)
    requires
        0 <= e <= s.len(),
    ensures
        0 <= rtrim_ws(s, e) <= e,
    decreases e,
{
    if e > 0 && is_ws(s[e - 1]) {
        lemma_rtrim_ws_bounds(s, e - 1);
    }
}

/// Reads the remainder of a JSON string that opened before index `i`,
/// decoding the single-character escapes `\" \\ \/ \n \t \r \b \f`.
/// Yields the decoded bytes so far in `acc` plus the rest, and the index
/// just past the closing quote. An unterminated string, an unknown escape
/// (including `\u`), or a raw control byte is not part of the grammar.
pub open spec fn str_tail(s: Seq<u8>, i: int, acc: Seq<u8>) -> Option<(Seq<u8>, int)>
    recommends
        0 <= i <= s.len(),
    decreases s.len() - i,
{
    if i >= s.len() {
        None
    } else if s[i] == 0x22 {
        Some((acc, i + 1))
    } else if s[i] == 0x5C {
        if i + 1 >= s.len() {
            None
        } else {
            let e = s[i + 1];
            if e == 0x22 {
                str_tail(s, i + 2, acc.push(0x22))
            } else if e == 0x5C {
                str_tail(s, i + 2, acc.push(0x5C))
            } else if e == 0x2F {
                str_tail(s, i + 2, acc.push(0x2F))
            } else if e == 0x6E {
                str_tail(s, i + 2, acc.push(0x0A))
            } else if e == 0x74 {
                str_tail(s, i + 2, acc.push(0x09))
            } else if e == 0x72 {
                str_tail(s, i + 2, acc.push(0x0D))
            } else if e == 0x62 {
                str_tail(s, i + 2, acc.push(0x08))
            } else if e == 0x66 {
                str_tail(s, i + 2, acc.push(0x0C))
            } else {
                None
            }
        }
    } else if s[i] < 0x20 {
        None
    } else {
        str_tail(s, i + 1, acc.push(s[i]))
    }
}

/// A successful string read ends within the input.
pub proof fn lemma_str_tail_bounds(s: Seq<u8>, i: int, acc: Seq<u8>)
    requires
        0 <= i <= s.len(),
        str_tail(s, i, acc) is Some,
    ensures
        i < str_tail(s, i, acc).unwrap().1 <= s.len(),
    decreases s.len() - i,
{
    if i >= s.len() {
    } else if s[i] == 0x22 {
    } else if s[i] == 0x5C {
        if i + 1 < s.len() {
            let e = s[i + 1];
            if e == 0x22 {
                lemma_str_tail_bounds(s, i + 2, acc.push(0x22));
            } else if e == 0x5C {
                lemma_str_tail_bounds(s, i + 2, acc.push(0x5C));
            } else if e == 0x2F {
                lemma_str_tail_bounds(s, i + 2, acc.push(0x2F));
            } else if e == 0x6E {
                lemma_str_tail_bounds(s, i + 2, acc.push(0x0A));
            } else if e == 0x74 {
                lemma_str_tail_bounds(s, i + 2, acc.push(0x09));
            } else if e == 0x72 {
                lemma_str_tail_bounds(s, i + 2, acc.push(0x0D));
            } else if e == 0x62 {
                lemma_str_tail_bounds(s, i + 2, acc.push(0x08));
            } else if e == 0x66 {
                lemma_str_tail_bounds(s, i + 2, acc.push(0x0C));
            }
        }
    } else if s[i] < 0x20 {
    } else {
        lemma_str_tail_bounds(s, i + 1, acc.push(s[i]));
    }
}

/// Whether a byte is a decimal digit.
pub open spec fn is_digit(b: u8) -> bool {
    0x30 <= b <= 0x39
}

/// The first index at or after `i` holding a non-digit byte.
pub open spec fn digits_end(s: Seq<u8>, i: int) -> int
    recommends
        0 <= i <= s.len(),
    decreases s.len() - i,
{
    if i < s.len() && is_digit(s[i]) {
        digits_end(s, i + 1)
    } else {
        i
    }
}

/// `digits_end` stays within the input.
pub proof fn lemma_digits_end_bounds(s: Seq<u8>, i: int)
    requires
        0 <= i <= s.len(),
    ensures
        i <= digits_end(s, i) <= s.len(),
    decreases s.len() - i,
{
    if i < s.len() && is_digit(s[i]) {
        lemma_digits_end_bounds(s, i + 1);
    }
}

/// The value of the digit run from `i` to `e`, accumulated onto `acc`.
pub open spec fn digits_value(s: Seq<u8>, i: int, e: int, acc: int) -> int
    recommends
        0 <= i <= e <= s.len(),
    decreases e - i,
{
    if i < e {
        digits_value(s, i + 1, e, acc * 10 + (s[i] - 0x30))
    } else {
        acc
    }
}

/// The value and end of a digit run starting at `j`, negated when `neg`;
/// `None` when no digit stands at `j`.
pub open spec fn int_mag_at(s: Seq<u8>, j: int, neg: bool) -> Option<(int, int)>
    recommends
        0 <= j <= s.len(),
{
    if digits_end(s, j) == j {
        None
    } else {
        Some(
            (
                (if neg {
                    -digits_value(s, j, digits_end(s, j), 0)
                } else {
                    digits_value(s, j, digits_end(s, j), 0)
                }),
                digits_end(s, j),
            ),
        )
    }
}

/// Parses a JSON integer at `i`: an optional minus sign followed by one
/// or more digits. Yields the unbounded value and the index after the
/// digits.
pub open spec fn int_at(s: Seq<u8>, i: int) -> Option<(int, int)>
    recommends
        0 <= i <= s.len(),
{
    if i < s.len() && s[i] == 0x2D {
        int_mag_at(s, i + 1, true)
    } else {
        int_mag_at(s, i, false)
    }
}

/// Skips whitespace.
pub fn skip_ws_at(s: &[u8], start: usize) -> (r: usize)
    requires
        start <= s@.len(),
    ensures
        r == skip_ws(s@, start as int),
        start <= r <= s@.len(),
{
    let mut i = start;
    while i < s.len() && (s[i] == 0x20 || s[i] == 0x09 || s[i] == 0x0A || s[i] == 0x0D)
        invariant
            start <= i <= s@.len(),
            skip_ws(s@, start as int) == skip_ws(s@, i as int),
        decreases s@.len() - i,
    {
        i = i + 1;
    }
    i
}

/// Drops trailing whitespace before `end`.
pub fn rtrim_ws_at(s: &[u8], end: usize) -> (r: usize)
    requires
        end <= s@.len(),
    ensures
        r == rtrim_ws(s@, end as int),
        r <= end,
{
    let mut e = end;
    while e > 0 && (s[e - 1] == 0x20 || s[e - 1] == 0x09 || s[e - 1] == 0x0A || s[e - 1] == 0x0D)
        invariant
            e <= end <= s@.len(),
            rtrim_ws(s@, end as int) == rtrim_ws(s@, e as int),
        decreases e,
    {
        e = e - 1;
    }
    e
}

/// Reads a JSON string whose opening quote stands just before `start`.
pub fn read_str_tail(s: &[u8], start: usize) -> (r: Option<(Vec<u8>, usize)>)
    requires
        start <= s@.len(),
    ensures
        match str_tail(s@, start as int, Seq::empty()) {
            Some(p) => r is Some && r.unwrap().0@ == p.0 && r.unwrap().1 == p.1 && r.unwrap().1
                <= s@.len(),
            None => r is None,
        },
{
    let ghost spec_result = str_tail(s@, start as int, Seq::empty());
    let mut acc: Vec<u8> = Vec::new();
    let mut i = start;
    loop
        invariant
            start <= i <= s@.len(),
            str_tail(s@, start as int, Seq::empty()) == str_tail(s@, i as int, acc@),
        decreases s@.len() - i,
    {
        if i >= s.len() {
            return None;
        }
        let b = s[i];
        if b == 0x22 {
            proof {
                if spec_result is Some {
                    lemma_str_tail_bounds(s@, start as int, Seq::empty());
                }
            }
            return Some((acc, i + 1));
        } else if b == 0x5C {
            if i + 1 >= s.len() {
                return None;
            }
            let e = s[i + 1];
            let decoded: u8 = if e == 0x22 {
                0x22
            } else if e == 0x5C {
                0x5C
            } else if e == 0x2F {
                0x2F
            } else if e == 0x6E {
                0x0A
            } else if e == 0x74 {
                0x09
            } else if e == 0x72 {
                0x0D
            } else if e == 0x62 {
                0x08
            } else if e == 0x66 {
                0x0C
            } else {
                return None;
            };
            acc.push(decoded);
            i = i + 2;
        } else if b < 0x20 {
            return None;
        } else {
            acc.push(b);
            i = i + 1;
        }
    }
}

/// The largest magnitude the integer grammar accepts: `i64::MAX`.
pub open spec fn int_limit() -> int {
    0x7FFF_FFFF_FFFF_FFFF
}

/// The outcome of reading an integer: a value and the index after it, a
/// well-formed number too wide for the grammar (with the index after it),
/// or no number at all.
pub enum IntParse {
    Val(i64, usize),
    Wide(usize),
    Absent,
}

/// Reads a JSON integer at `start`. The grammar bounds values to
/// magnitudes of at most `i64::MAX`; a wider number is reported as such.
pub fn read_int_at(s: &[u8], start: usize) -> (r: IntParse)
    requires
        start <= s@.len(),
    ensures
        match int_at(s@, start as int) {
            Some(p) => {
                if -int_limit() <= p.0 <= int_limit() {
                    r is Val && r->Val_0 == p.0 && r->Val_1 == p.1 && p.1 <= s@.len()
                } else {
                    r is Wide && r->Wide_0 == p.1 && p.1 <= s@.len()
                }
            },
            None => r is Absent,
        },
{
    let neg = start < s.len() && s[start] == 0x2D;
    let j: usize = if neg {
        start + 1
    } else {
        start
    };
    proof {
        lemma_digits_end_bounds(s@, j as int);
    }
    let ghost e = digits_end(s@, j as int);
    if j >= s.len() || !(0x30 <= s[j] && s[j] <= 0x39) {
        return IntParse::Absent;
    }
    let mut acc: u64 = 0;
    let mut i = j;
    while i < s.len() && 0x30 <= s[i] && s[i] <= 0x39
        invariant
            start <= s@.len(),
            neg == (start < s@.len() && s@[start as int] == 0x2D),
            j == if neg {
                start as int + 1
            } else {
                start as int
            },
            j <= i <= s@.len(),
            i <= e,
            digits_end(s@, j as int) == digits_end(s@, i as int),
            e == digits_end(s@, j as int),
            acc <= 0x7FFF_FFFF_FFFF_FFFF,
            digits_value(s@, j as int, e, 0) == digits_value(s@, i as int, e, acc as int),
        decreases s@.len() - i,
    {
        let d = (s[i] - 0x30) as u64;
        proof {
            lemma_digits_end_bounds(s@, i as int + 1);
            assert(e >= i + 1);
        }
        if acc > (0x7FFF_FFFF_FFFF_FFFFu64 - d) / 10 {
            proof {
                assert(acc * 10 + d > 0x7FFF_FFFF_FFFF_FFFF) by (nonlinear_arith)
                    requires
                        acc > (0x7FFF_FFFF_FFFF_FFFFu64 - d) / 10,
                        d <= 9,
                ;
                assert(digits_value(s@, i as int, e, acc as int) == digits_value(
                    s@,
                    i as int + 1,
                    e,
                    acc as int * 10 + d,
                ));
                lemma_digits_end_digits(s@, i as int + 1);
                lemma_digits_value_grows(s@, i as int + 1, e, acc as int * 10 + d);
                assert(digits_value(s@, j as int, e, 0) > int_limit());
                let v = digits_value(s@, j as int, e, 0);
                assert(e > j);
                assert(int_mag_at(s@, j as int, neg) == Some(((if neg { -v } else { v }), e)));
                assert(int_at(s@, start as int) == int_mag_at(s@, j as int, neg));
            }
            // the number is well-formed but too wide: walk to its end
            let mut k = i;
            while k < s.len() && 0x30 <= s[k] && s[k] <= 0x39
                invariant
                    k <= s@.len(),
                    digits_end(s@, k as int) == e,
                    e == digits_end(s@, j as int),
                decreases s@.len() - k,
            {
                k = k + 1;
            }
            proof {
                assert(k == e);
            }
            return IntParse::Wide(k);
        }
        proof {
            assert(acc * 10 + d <= 0x7FFF_FFFF_FFFF_FFFF) by (nonlinear_arith)
                requires
                    acc <= (0x7FFF_FFFF_FFFF_FFFFu64 - d) / 10,
                    d <= 9,
            ;
        }
        acc = acc * 10 + d;
        i = i + 1;
    }
    proof {
        assert(i == e);
        assert(digits_value(s@, j as int, e, 0) == acc as int);
        assert(e > j);
        assert(int_mag_at(s@, j as int, neg) == Some(
            ((if neg {
                -(acc as int)
            } else {
                acc as int
            }), e),
        ));
        assert(int_at(s@, start as int) == int_mag_at(s@, j as int, neg));
    }
    if neg {
        IntParse::Val(-(acc as i64), i)
    } else {
        IntParse::Val(acc as i64, i)
    }
}

/// The key bytes `code`.
pub open spec fn code_key() -> Seq<u8> {
    seq![0x63u8, 0x6Fu8, 0x64u8, 0x65u8]
}

/// The key bytes `msg`.
pub open spec fn msg_key() -> Seq<u8> {
    seq![0x6Du8, 0x73u8, 0x67u8]
}

/// The key bytes `result`.
pub open spec fn result_key() -> Seq<u8> {
    seq![0x72u8, 0x65u8, 0x73u8, 0x75u8, 0x6Cu8, 0x74u8]
}

/// One member of the error envelope: its code or its message.
pub enum EnvelopeMember {
    CodeOf(int),
    MsgOf(Seq<u8>),
}

/// Parses one error-envelope member at `i`: a quoted key `code` followed
/// by a colon and an integer, or a quoted key `msg` followed by a colon
/// and a string. Whitespace may surround the colon.
pub open spec fn member_at(s: Seq<u8>, i: int) -> Option<(EnvelopeMember, int)>
    recommends
        0 <= i <= s.len(),
{
    if i < s.len() && s[i] == 0x22 {
        match str_tail(s, i + 1, Seq::empty()) {
            None => None,
            Some(kp) => {
                let j2 = skip_ws(s, kp.1);
                if j2 < s.len() && s[j2] == 0x3A {
                    let j3 = skip_ws(s, j2 + 1);
                    if kp.0 == code_key() {
                        match int_at(s, j3) {
                            None => None,
                            Some(vp) => Some((EnvelopeMember::CodeOf(vp.0), vp.1)),
                        }
                    } else if kp.0 == msg_key() {
                        if j3 < s.len() && s[j3] == 0x22 {
                            match str_tail(s, j3 + 1, Seq::empty()) {
                                None => None,
                                Some(mp) => Some((EnvelopeMember::MsgOf(mp.0), mp.1)),
                            }
                        } else {
                            None
                        }
                    } else {
                        None
                    }
                } else {
                    None
                }
            },
        }
    } else {
        None
    }
}

/// A parsed member ends within the input.
pub proof fn lemma_member_at_bounds(s: Seq<u8>, i: int)
    requires
        0 <= i <= s.len(),
        member_at(s, i) is Some,
    ensures
        0 <= member_at(s, i).unwrap().1 <= s.len(),
{
    if i < s.len() && s[i] == 0x22 {
        if str_tail(s, i + 1, Seq::empty()) is Some {
            let kp = str_tail(s, i + 1, Seq::empty()).unwrap();
            lemma_str_tail_bounds(s, i + 1, Seq::empty());
            lemma_skip_ws_bounds(s, kp.1);
            let j2 = skip_ws(s, kp.1);
            if j2 < s.len() && s[j2] == 0x3A {
                let j3 = skip_ws(s, j2 + 1);
                lemma_skip_ws_bounds(s, j2 + 1);
                if kp.0 == code_key() {
                    if int_at(s, j3) is Some {
                        if j3 < s.len() && s[j3] == 0x2D {
                            lemma_digits_end_bounds(s, j3 + 1);
                        } else {
                            lemma_digits_end_bounds(s, j3);
                        }
                    }
                } else if kp.0 == msg_key() {
                    if j3 < s.len() && s[j3] == 0x22 {
                        if str_tail(s, j3 + 1, Seq::empty()) is Some {
                            lemma_str_tail_bounds(s, j3 + 1, Seq::empty());
                        }
                    }
                }
            }
        }
    }
}

/// Parses one structured error object at `i`: a JSON object holding
/// exactly a `code` integer and a `msg` string, in either order. Yields
/// the pair and the index just past the closing brace.
pub open spec fn error_pair_at(s: Seq<u8>, i: int) -> Option<((int, Seq<u8>), int)>
    recommends
        0 <= i <= s.len(),
{
    if i < s.len() && s[i] == 0x7B {
        let i1 = skip_ws(s, i + 1);
        match member_at(s, i1) {
            None => None,
            Some(m1) => {
                let i2 = skip_ws(s, m1.1);
                if i2 < s.len() && s[i2] == 0x2C {
                    let i3 = skip_ws(s, i2 + 1);
                    match member_at(s, i3) {
                        None => None,
                        Some(m2) => {
                            let i4 = skip_ws(s, m2.1);
                            if i4 < s.len() && s[i4] == 0x7D {
                                match (m1.0, m2.0) {
                                    (EnvelopeMember::CodeOf(c), EnvelopeMember::MsgOf(m)) => Some(
                                        ((c, m), i4 + 1),
                                    ),
                                    (EnvelopeMember::MsgOf(m), EnvelopeMember::CodeOf(c)) => Some(
                                        ((c, m), i4 + 1),
                                    ),
                                    _ => None,
                                }
                            } else {
                                None
                            }
                        },
                    }
                } else {
                    None
                }
            },
        }
    } else {
        None
    }
}

/// A parsed error object ends within the input.
pub proof fn lemma_error_pair_at_bounds(s: Seq<u8>, i: int)
    requires
        0 <= i <= s.len(),
        error_pair_at(s, i) is Some,
    ensures
        0 <= error_pair_at(s, i).unwrap().1 <= s.len(),
{
    let i1 = skip_ws(s, i + 1);
    lemma_skip_ws_bounds(s, i + 1);
    lemma_member_at_bounds(s, i1);
    let m1 = member_at(s, i1).unwrap();
    let i2 = skip_ws(s, m1.1);
    lemma_skip_ws_bounds(s, m1.1);
    let i3 = skip_ws(s, i2 + 1);
    lemma_skip_ws_bounds(s, i2 + 1);
    lemma_member_at_bounds(s, i3);
    let m2 = member_at(s, i3).unwrap();
    let i4 = skip_ws(s, m2.1);
    lemma_skip_ws_bounds(s, m2.1);
}

/// The structured error as a whole response body: the error object and
/// nothing but whitespace around it.
pub open spec fn error_envelope_of(s: Seq<u8>) -> Option<(int, Seq<u8>)> {
    let i0 = skip_ws(s, 0);
    match error_pair_at(s, i0) {
        None => None,
        Some(pe) => if skip_ws(s, pe.1) == s.len() {
            Some(pe.0)
        } else {
            None
        },
    }
}

/// The key bytes `error`.
pub open spec fn error_key() -> Seq<u8> {
    seq![0x65u8, 0x72u8, 0x72u8, 0x6Fu8, 0x72u8]
}

/// The wrapped error form the WS-API uses: a JSON object whose single
/// member is `error`, holding the structured error object.
pub open spec fn wrapped_error_of(s: Seq<u8>) -> Option<(int, Seq<u8>)> {
    let i0 = skip_ws(s, 0);
    if i0 < s.len() && s[i0] == 0x7B {
        let i1 = skip_ws(s, i0 + 1);
        if i1 < s.len() && s[i1] == 0x22 {
            match str_tail(s, i1 + 1, Seq::empty()) {
                None => None,
                Some(kp) => {
                    if kp.0 == error_key() {
                        let j2 = skip_ws(s, kp.1);
                        if j2 < s.len() && s[j2] == 0x3A {
                            let j3 = skip_ws(s, j2 + 1);
                            match error_pair_at(s, j3) {
                                None => None,
                                Some(pe) => {
                                    let i4 = skip_ws(s, pe.1);
                                    if i4 < s.len() && s[i4] == 0x7D && skip_ws(s, i4 + 1)
                                        == s.len() {
                                        Some(pe.0)
                                    } else {
                                        None
                                    }
                                },
                            }
                        } else {
                            None
                        }
                    } else {
                        None
                    }
                },
            }
        } else {
            None
        }
    } else {
        None
    }
}

/// The structured error a body carries, in either accepted form: the
/// bare error object, or the object wrapped under an `error` member.
pub open spec fn api_error_of(s: Seq<u8>) -> Option<(int, Seq<u8>)> {
    if error_envelope_of(s) is Some {
        error_envelope_of(s)
    } else {
        wrapped_error_of(s)
    }
}

/// The wrapped success form: a JSON object whose single member is
/// `result`; the payload is the member's raw value bytes.
pub open spec fn result_payload_of(s: Seq<u8>) -> Option<Seq<u8>> {
    let i0 = skip_ws(s, 0);
    if i0 < s.len() && s[i0] == 0x7B {
        let i1 = skip_ws(s, i0 + 1);
        if i1 < s.len() && s[i1] == 0x22 {
            match str_tail(s, i1 + 1, Seq::empty()) {
                None => None,
                Some(kp) => {
                    if kp.0 == result_key() {
                        let j2 = skip_ws(s, kp.1);
                        if j2 < s.len() && s[j2] == 0x3A {
                            let j3 = skip_ws(s, j2 + 1);
                            let e0 = rtrim_ws(s, s.len() as int);
                            if e0 > 0 && j3 <= e0 - 1 && s[e0 - 1] == 0x7D {
                                let pe = rtrim_ws(s, e0 - 1);
                                if pe > j3 {
                                    Some(s.subrange(j3, pe))
                                } else {
                                    None
                                }
                            } else {
                                None
                            }
                        } else {
                            None
                        }
                    } else {
                        None
                    }
                },
            }
        } else {
            None
        }
    } else {
        None
    }
}

/// Whether an HTTP status reports success.
pub open spec fn status_ok(status: u16) -> bool {
    200 <= status < 300
}

/// How one response decodes: the envelope's error regardless of status, a
/// delivered payload on a successful status, or a malformed body.
pub enum EnvelopeView {
    ApiErr { code: int, msg: Seq<u8> },
    Payload { body: Seq<u8> },
    Malformed,
}

/// The decoded envelope of a response: a body carrying the structured
/// error surfaces it whatever the HTTP status says; otherwise a wrapped
/// `result` on a success status is the payload; anything else is
/// malformed. A code too wide for `i64` is outside the grammar.
pub open spec fn envelope_of(status: u16, s: Seq<u8>) -> EnvelopeView {
    if api_error_of(s) is Some && -int_limit() <= api_error_of(s).unwrap().0 <= int_limit() {
        EnvelopeView::ApiErr {
            code: api_error_of(s).unwrap().0,
            msg: api_error_of(s).unwrap().1,
        }
    } else if status_ok(status) {
        match result_payload_of(s) {
            Some(p) => EnvelopeView::Payload { body: p },
            None => EnvelopeView::Malformed,
        }
    } else {
        EnvelopeView::Malformed
    }
}

/// Every byte of a digit run is a digit.
proof fn lemma_digits_end_digits(s: Seq<u8>, i: int)
    requires
        0 <= i <= s.len(),
    ensures
        forall|k: int| i <= k < digits_end(s, i) ==> is_digit(s[k]),
    decreases s.len() - i,
{
    if i < s.len() && is_digit(s[i]) {
        lemma_digits_end_digits(s, i + 1);
    }
}

/// Compares two byte strings.
fn bytes_eq(a: &[u8], b: &[u8]) -> (r: bool)
    ensures
        r == (a@ == b@),
{
    if a.len() != b.len() {
        proof {
            assert(a@.len() != b@.len());
        }
        return false;
    }
    let mut i: usize = 0;
    while i < a.len()
        invariant
            i <= a@.len(),
            a@.len() == b@.len(),
            forall|k: int| 0 <= k < i ==> a@[k] == b@[k],
        decreases a@.len() - i,
    {
        if a[i] != b[i] {
            return false;
        }
        i = i + 1;
    }
    proof {
        assert(a@ =~= b@);
    }
    true
}

/// One parsed member: a code value, a well-formed code too wide for the
/// grammar, or a message.
enum ParsedMember {
    CodeVal(i64),
    CodeWide,
    MsgVal(Vec<u8>),
}

/// Reads one error-envelope member at `start`.
fn read_member(s: &[u8], start: usize) -> (r: Option<(ParsedMember, usize)>)
    requires
        start <= s@.len(),
    ensures
        match member_at(s@, start as int) {
            None => r is None,
            Some(me) => r is Some && r.unwrap().1 == me.1 && me.1 <= s@.len() && (match me.0 {
                EnvelopeMember::CodeOf(v) => if -int_limit() <= v <= int_limit() {
                    r.unwrap().0 is CodeVal && r.unwrap().0->CodeVal_0 == v
                } else {
                    r.unwrap().0 is CodeWide
                },
                EnvelopeMember::MsgOf(m) => r.unwrap().0 is MsgVal && r.unwrap().0->MsgVal_0@ == m,
            }),
        },
{
    proof {
        if member_at(s@, start as int) is Some {
            lemma_member_at_bounds(s@, start as int);
        }
    }
    if !(start < s.len() && s[start] == 0x22) {
        return None;
    }
    let key = match read_str_tail(s, start + 1) {
        Some(k) => k,
        None => {
            return None;
        },
    };
    let j2 = skip_ws_at(s, key.1);
    if !(j2 < s.len() && s[j2] == 0x3A) {
        return None;
    }
    let j3 = skip_ws_at(s, j2 + 1);
    let mut code_key_bytes: Vec<u8> = Vec::new();
    code_key_bytes.push(0x63);
    code_key_bytes.push(0x6F);
    code_key_bytes.push(0x64);
    code_key_bytes.push(0x65);
    proof {
        assert(code_key_bytes@ =~= code_key());
    }
    let mut msg_key_bytes: Vec<u8> = Vec::new();
    msg_key_bytes.push(0x6D);
    msg_key_bytes.push(0x73);
    msg_key_bytes.push(0x67);
    proof {
        assert(msg_key_bytes@ =~= msg_key());
    }
    if bytes_eq(key.0.as_slice(), code_key_bytes.as_slice()) {
        match read_int_at(s, j3) {
            IntParse::Val(v, e) => Some((ParsedMember::CodeVal(v), e)),
            IntParse::Wide(e) => Some((ParsedMember::CodeWide, e)),
            IntParse::Absent => None,
        }
    } else if bytes_eq(key.0.as_slice(), msg_key_bytes.as_slice()) {
        if !(j3 < s.len() && s[j3] == 0x22) {
            return None;
        }
        match read_str_tail(s, j3 + 1) {
            Some(m) => Some((ParsedMember::MsgVal(m.0), m.1)),
            None => None,
        }
    } else {
        None
    }
}

/// Reads one structured error object at `start`.
fn read_error_pair(s: &[u8], start: usize) -> (r: Option<(i64, Vec<u8>, usize)>)
    requires
        start <= s@.len(),
    ensures
        match error_pair_at(s@, start as int) {
            None => r is None,
            Some(pe) => if -int_limit() <= pe.0.0 <= int_limit() {
                r is Some && r.unwrap().0 == pe.0.0 && r.unwrap().1@ == pe.0.1 && r.unwrap().2
                    == pe.1 && pe.1 <= s@.len()
            } else {
                r is None
            },
        },
{
    proof {
        if error_pair_at(s@, start as int) is Some {
            lemma_error_pair_at_bounds(s@, start as int);
        }
    }
    if !(start < s.len() && s[start] == 0x7B) {
        return None;
    }
    let i1 = skip_ws_at(s, start + 1);
    let m1 = match read_member(s, i1) {
        Some(m) => m,
        None => {
            return None;
        },
    };
    let i2 = skip_ws_at(s, m1.1);
    if !(i2 < s.len() && s[i2] == 0x2C) {
        return None;
    }
    let i3 = skip_ws_at(s, i2 + 1);
    let m2 = match read_member(s, i3) {
        Some(m) => m,
        None => {
            return None;
        },
    };
    let i4 = skip_ws_at(s, m2.1);
    if !(i4 < s.len() && s[i4] == 0x7D) {
        return None;
    }
    match (m1.0, m2.0) {
        (ParsedMember::CodeVal(c), ParsedMember::MsgVal(m)) => Some((c, m, i4 + 1)),
        (ParsedMember::MsgVal(m), ParsedMember::CodeVal(c)) => Some((c, m, i4 + 1)),
        _ => None,
    }
}

/// Reads the bare error envelope, if the body is one.
fn read_error_envelope(s: &[u8]) -> (r: Option<(i64, Vec<u8>)>)
    ensures
        match error_envelope_of(s@) {
            None => r is None,
            Some(cm) => if -int_limit() <= cm.0 <= int_limit() {
                r is Some && r.unwrap().0 == cm.0 && r.unwrap().1@ == cm.1
            } else {
                r is None
            },
        },
{
    let i0 = skip_ws_at(s, 0);
    let pe = match read_error_pair(s, i0) {
        Some(p) => p,
        None => {
            return None;
        },
    };
    if skip_ws_at(s, pe.2) != s.len() {
        return None;
    }
    Some((pe.0, pe.1))
}

/// Reads the wrapped error form, if the body is one.
fn read_wrapped_error(s: &[u8]) -> (r: Option<(i64, Vec<u8>)>)
    ensures
        match wrapped_error_of(s@) {
            None => r is None,
            Some(cm) => if -int_limit() <= cm.0 <= int_limit() {
                r is Some && r.unwrap().0 == cm.0 && r.unwrap().1@ == cm.1
            } else {
                r is None
            },
        },
{
    let i0 = skip_ws_at(s, 0);
    if !(i0 < s.len() && s[i0] == 0x7B) {
        return None;
    }
    let i1 = skip_ws_at(s, i0 + 1);
    if !(i1 < s.len() && s[i1] == 0x22) {
        return None;
    }
    let key = match read_str_tail(s, i1 + 1) {
        Some(k) => k,
        None => {
            return None;
        },
    };
    let mut error_key_bytes: Vec<u8> = Vec::new();
    error_key_bytes.push(0x65);
    error_key_bytes.push(0x72);
    error_key_bytes.push(0x72);
    error_key_bytes.push(0x6F);
    error_key_bytes.push(0x72);
    proof {
        assert(error_key_bytes@ =~= error_key());
    }
    if !bytes_eq(key.0.as_slice(), error_key_bytes.as_slice()) {
        return None;
    }
    let j2 = skip_ws_at(s, key.1);
    if !(j2 < s.len() && s[j2] == 0x3A) {
        return None;
    }
    let j3 = skip_ws_at(s, j2 + 1);
    let pe = match read_error_pair(s, j3) {
        Some(p) => p,
        None => {
            return None;
        },
    };
    let i4 = skip_ws_at(s, pe.2);
    if !(i4 < s.len() && s[i4] == 0x7D) {
        return None;
    }
    if skip_ws_at(s, i4 + 1) != s.len() {
        return None;
    }
    Some((pe.0, pe.1))
}

/// Reads the structured error in either accepted form.
fn read_api_error(s: &[u8]) -> (r: Option<(i64, Vec<u8>)>)
    ensures
        match api_error_of(s@) {
            None => r is None,
            Some(cm) => if -int_limit() <= cm.0 <= int_limit() {
                r is Some && r.unwrap().0 == cm.0 && r.unwrap().1@ == cm.1
            } else {
                r is None
            },
        },
{
    match read_error_envelope(s) {
        Some(cm) => Some(cm),
        None => read_wrapped_error(s),
    }
}

/// Reads the payload of a wrapped `result` body, if the body is one.
fn read_result_payload(s: &[u8]) -> (r: Option<Vec<u8>>)
    ensures
        match result_payload_of(s@) {
            None => r is None,
            Some(p) => r is Some && r.unwrap()@ == p,
        },
{
    let i0 = skip_ws_at(s, 0);
    if !(i0 < s.len() && s[i0] == 0x7B) {
        return None;
    }
    let i1 = skip_ws_at(s, i0 + 1);
    if !(i1 < s.len() && s[i1] == 0x22) {
        return None;
    }
    let key = match read_str_tail(s, i1 + 1) {
        Some(k) => k,
        None => {
            return None;
        },
    };
    let mut result_key_bytes: Vec<u8> = Vec::new();
    result_key_bytes.push(0x72);
    result_key_bytes.push(0x65);
    result_key_bytes.push(0x73);
    result_key_bytes.push(0x75);
    result_key_bytes.push(0x6C);
    result_key_bytes.push(0x74);
    proof {
        assert(result_key_bytes@ =~= result_key());
    }
    if !bytes_eq(key.0.as_slice(), result_key_bytes.as_slice()) {
        return None;
    }
    let j2 = skip_ws_at(s, key.1);
    if !(j2 < s.len() && s[j2] == 0x3A) {
        return None;
    }
    let j3 = skip_ws_at(s, j2 + 1);
    let e0 = rtrim_ws_at(s, s.len());
    if !(e0 > 0 && j3 <= e0 - 1 && s[e0 - 1] == 0x7D) {
        return None;
    }
    let pe = rtrim_ws_at(s, e0 - 1);
    if !(pe > j3) {
        return None;
    }
    let mut payload: Vec<u8> = Vec::new();
    let mut k = j3;
    while k < pe
        invariant
            j3 <= k <= pe <= s@.len(),
            payload@ == s@.subrange(j3 as int, k as int),
        decreases pe - k,
    {
        payload.push(s[k]);
        proof {
            assert(payload@ =~= s@.subrange(j3 as int, k as int + 1));
        }
        k = k + 1;
    }
    Some(payload)
}

/// One decoded response envelope.
#[derive(Debug)]
pub enum Envelope {
    /// The exchange rejected the request at the application layer.
    ApiErr { code: i64, msg: Vec<u8> },
    /// The wrapped payload of a successful response.
    Payload { body: Vec<u8> },
    /// The body matched neither envelope form.
    Malformed,
}

impl View for Envelope {
    type V = EnvelopeView;

    open spec fn view(&self) -> EnvelopeView {
        match self {
            Envelope::ApiErr { code, msg } => EnvelopeView::ApiErr {
                code: *code as int,
                msg: msg@,
            },
            Envelope::Payload { body } => EnvelopeView::Payload { body: body@ },
            Envelope::Malformed => EnvelopeView::Malformed,
        }
    }
}

/// Decodes one response body against the envelope grammar: a structured
/// error surfaces as `ApiErr` whatever the HTTP status, a wrapped
/// `result` on a success status is the payload, and anything else is
/// `Malformed` — a typed value, never a crash.
pub fn decode_envelope(status: u16, body: &[u8]) -> (r: Envelope)
    ensures
        r@ == envelope_of(status, body@),
{
    match read_api_error(body) {
        Some(cm) => Envelope::ApiErr { code: cm.0, msg: cm.1 },
        None => {
            if 200 <= status && status < 300 {
                match read_result_payload(body) {
                    Some(p) => Envelope::Payload { body: p },
                    None => Envelope::Malformed,
                }
            } else {
                Envelope::Malformed
            }
        },
    }
}

/// The structured error content the exchange returns: a numeric code and
/// a human-readable message.
#[derive(Debug)]
pub struct ContentError {
    pub code: i64,
    pub msg: String,
}

/// How a REST response is classified before the typed decode.
#[derive(Debug)]
pub enum RestOutcome {
    /// A successful status whose body is handed on to the typed decode.
    Deliver { status: u16, body: Vec<u8> },
    /// The exchange rejected the request at the application layer,
    /// whatever the HTTP status says.
    ApiRejection { status: u16, code: i64, msg: Vec<u8> },
    /// A failing status whose body is not the structured error: a
    /// contract violation by the server, surfaced as its own error.
    Unparseable { status: u16 },
}

/// The classification a REST response must receive: a structured error
/// body is the API's rejection regardless of status; otherwise a success
/// status delivers the body unchanged, and a failing status with any
/// other body is the distinct unparseable-response error.
pub open spec fn rest_outcome_of(status: u16, s: Seq<u8>) -> EnvelopeView {
    if api_error_of(s) is Some && -int_limit() <= api_error_of(s).unwrap().0 <= int_limit() {
        EnvelopeView::ApiErr {
            code: api_error_of(s).unwrap().0,
            msg: api_error_of(s).unwrap().1,
        }
    } else if status_ok(status) {
        EnvelopeView::Payload { body: s }
    } else {
        EnvelopeView::Malformed
    }
}

impl View for RestOutcome {
    type V = EnvelopeView;

    open spec fn view(&self) -> EnvelopeView {
        match self {
            RestOutcome::Deliver { status, body } => EnvelopeView::Payload { body: body@ },
            RestOutcome::ApiRejection { status, code, msg } => EnvelopeView::ApiErr {
                code: *code as int,
                msg: msg@,
            },
            RestOutcome::Unparseable { status } => EnvelopeView::Malformed,
        }
    }
}

/// Classifies one REST response. The carried status is the response's own.
pub fn classify_response(status: u16, body: Vec<u8>) -> (r: RestOutcome)
    ensures
        r@ == rest_outcome_of(status, body@),
        match r {
            RestOutcome::Deliver { status: st, .. } => st == status && status_ok(status),
            RestOutcome::ApiRejection { status: st, .. } => st == status,
            RestOutcome::Unparseable { status: st } => st == status && !status_ok(status),
        },
{
    match read_api_error(body.as_slice()) {
        Some(cm) => RestOutcome::ApiRejection { status, code: cm.0, msg: cm.1 },
        None => {
            if 200 <= status && status < 300 {
                RestOutcome::Deliver { status, body }
            } else {
                RestOutcome::Unparseable { status }
            }
        },
    }
}

/// The distinct error for a body that should have decoded into the typed
/// response but did not.
#[derive(Clone, Copy, Debug, PartialEq, Eq, Structural)]
pub struct UnparseableResponse {
    pub status: u16,
}

/// Settles the typed decode of a delivered body: a decoded value is the
/// success, and a failed decode is the unparseable-response error — a
/// returned value, never a crash.
pub fn settle_decoded<T>(status: u16, decoded: Option<T>) -> (r: Result<T, UnparseableResponse>)
    ensures
        r is Ok <==> decoded is Some,
        r is Ok ==> r->Ok_0 == decoded.unwrap(),
        r is Err ==> r->Err_0 == (UnparseableResponse { status }),
{
    match decoded {
        Some(v) => Ok(v),
        None => Err(UnparseableResponse { status }),
    }
}

/// Accumulating further digits never shrinks the value.
proof fn lemma_digits_value_grows(s: Seq<u8>, i: int, e: int, acc: int)
    requires
        0 <= i <= e <= s.len(),
        acc >= 0,
        forall|k: int| i <= k < e ==> is_digit(s[k]),
    ensures
        digits_value(s, i, e, acc) >= acc,
    decreases e - i,
{
    if i < e {
        let d = s[i] - 0x30;
        assert(0 <= d <= 9);
        assert(acc * 10 + d >= acc) by (nonlinear_arith)
            requires
                acc >= 0,
                d >= 0,
        ;
        lemma_digits_value_grows(s, i + 1, e, acc * 10 + d);
    }
}

} // verus!
