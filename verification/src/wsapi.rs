//! The WS-API request builder: renders one request as a single JSON text
//! message `{"id":...,"method":...,"params":{...}}`, with credentials
//! injected into the parameter object for keyed and signed requests. The
//! WS-API signer canonicalizes differently from the REST signer: it signs
//! the `key=value&` rendering of the parameters sorted by key, each value
//! in its JSON form, with a trailing separator.

use vstd::prelude::*;
use vstd::string::StringSliceAdditionalSpecFns;
use vstd::string::StrSliceExecFns;
use vstd::slice::slice_to_vec;
use vstd::utf8::encode_utf8;
use crate::encoding::{dec_of, u64_to_dec, hex_upper_digit};
use crate::params::{Param, ParamValue, ParamView, ParamValueView, param_views};
use crate::sign::{signature_of, signature_bytes};

verus! {

/// The JSON escape of one byte inside a string literal: quote and
/// backslash escaped, the named control escapes, `\u00XX` for the other
/// control bytes, everything else unchanged.
pub open spec fn json_esc_byte(b: u8) -> Seq<u8> {
    if b == 0x22 {
        seq![0x5Cu8, 0x22u8]
    } else if b == 0x5C {
        seq![0x5Cu8, 0x5Cu8]
    } else if b == 0x08 {
        seq![0x5Cu8, 0x62u8]
    } else if b == 0x0C {
        seq![0x5Cu8, 0x66u8]
    } else if b == 0x0A {
        seq![0x5Cu8, 0x6Eu8]
    } else if b == 0x0D {
        seq![0x5Cu8, 0x72u8]
    } else if b == 0x09 {
        seq![0x5Cu8, 0x74u8]
    } else if b < 0x20 {
        seq![
            0x5Cu8,
            0x75u8,
            0x30u8,
            0x30u8,
            hex_upper_digit(b as int / 16),
            hex_upper_digit(b as int % 16),
        ]
    } else {
        seq![b]
    }
}

/// The JSON escaping of a byte string's contents.
pub open spec fn json_esc_of(bytes: Seq<u8>) -> Seq<u8> {
    bytes.flat_map(|b: u8| json_esc_byte(b))
}

/// A JSON string literal: the escaped contents between quotes.
pub open spec fn json_quoted(bytes: Seq<u8>) -> Seq<u8> {
    seq![0x22u8] + json_esc_of(bytes) + seq![0x22u8]
}

/// The JSON rendering of one parameter value: text as a string literal,
/// integers in decimal, booleans bare.
pub open spec fn json_value_of(v: ParamValueView) -> Seq<u8> {
    match v {
        ParamValueView::Text(t) => json_quoted(t),
        ParamValueView::Unsigned(n) => dec_of(n as int),
        ParamValueView::Boolean(b) => if b {
            seq![0x74u8, 0x72u8, 0x75u8, 0x65u8]
        } else {
            seq![0x66u8, 0x61u8, 0x6Cu8, 0x73u8, 0x65u8]
        },
    }
}

/// Escapes a byte string for use inside a JSON string literal.
pub fn json_escape(bytes: &[u8]) -> (r: Vec<u8>)
    ensures
        r@ == json_esc_of(bytes@),
{
    let mut r: Vec<u8> = Vec::new();
    let mut i: usize = 0;
    proof {
        assert(bytes@.take(0).flat_map(|b: u8| json_esc_byte(b)) =~= Seq::<u8>::empty());
    }
    while i < bytes.len()
        invariant
            i <= bytes@.len(),
            r@ == bytes@.take(i as int).flat_map(|b: u8| json_esc_byte(b)),
        decreases bytes@.len() - i,
    {
        let b = bytes[i];
        if b == 0x22 {
            r.push(0x5C);
            r.push(0x22);
        } else if b == 0x5C {
            r.push(0x5C);
            r.push(0x5C);
        } else if b == 0x08 {
            r.push(0x5C);
            r.push(0x62);
        } else if b == 0x0C {
            r.push(0x5C);
            r.push(0x66);
        } else if b == 0x0A {
            r.push(0x5C);
            r.push(0x6E);
        } else if b == 0x0D {
            r.push(0x5C);
            r.push(0x72);
        } else if b == 0x09 {
            r.push(0x5C);
            r.push(0x74);
        } else if b < 0x20 {
            r.push(0x5C);
            r.push(0x75);
            r.push(0x30);
            r.push(0x30);
            r.push(if b / 16 < 10 {
                0x30 + b / 16
            } else {
                0x37 + b / 16
            });
            r.push(if b % 16 < 10 {
                0x30 + b % 16
            } else {
                0x37 + b % 16
            });
        } else {
            r.push(b);
        }
        proof {
            bytes@.lemma_flat_map_take_append(|b: u8| json_esc_byte(b), i as int);
            assert(r@ =~= bytes@.take(i as int + 1).flat_map(|b: u8| json_esc_byte(b)));
        }
        i = i + 1;
    }
    proof {
        assert(bytes@.take(bytes@.len() as int) =~= bytes@);
    }
    r
}

/// Appends a JSON string literal holding `bytes` to `out`.
fn push_quoted(out: &mut Vec<u8>, bytes: &[u8])
    ensures
        final(out)@ == old(out)@ + json_quoted(bytes@),
{
    out.push(0x22);
    let mut esc = json_escape(bytes);
    out.append(&mut esc);
    out.push(0x22);
    proof {
        assert(out@ =~= old(out)@ + json_quoted(bytes@));
    }
}

/// Appends the JSON rendering of one value to `out`.
fn push_json_value(out: &mut Vec<u8>, v: &ParamValue)
    ensures
        final(out)@ == old(out)@ + json_value_of(v@),
{
    match v {
        ParamValue::Text(t) => push_quoted(out, t.as_slice()),
        ParamValue::Unsigned(n) => {
            let mut d = u64_to_dec(*n);
            out.append(&mut d);
        },
        ParamValue::Boolean(b) => {
            if *b {
                out.push(0x74);
                out.push(0x72);
                out.push(0x75);
                out.push(0x65);
            } else {
                out.push(0x66);
                out.push(0x61);
                out.push(0x6C);
                out.push(0x73);
                out.push(0x65);
            }
            proof {
                assert(out@ =~= old(out)@ + json_value_of(v@));
            }
        },
    }
}

/// Byte-lexicographic order on keys, the order the signer sorts by.
pub open spec fn lex_le(a: Seq<u8>, b: Seq<u8>) -> bool
    decreases a.len(),
{
    if a.len() == 0 {
        true
    } else if b.len() == 0 {
        false
    } else if a[0] < b[0] {
        true
    } else if a[0] > b[0] {
        false
    } else {
        lex_le(a.drop_first(), b.drop_first())
    }
}

/// Compares two keys in byte-lexicographic order.
pub fn lex_le_bytes(a: &[u8], b: &[u8]) -> (r: bool)
    ensures
        r == lex_le(a@, b@),
{
    let mut i: usize = 0;
    proof {
        assert(a@.skip(0) =~= a@);
        assert(b@.skip(0) =~= b@);
    }
    loop
        invariant
            i <= a@.len(),
            i <= b@.len(),
            lex_le(a@, b@) == lex_le(a@.skip(i as int), b@.skip(i as int)),
        decreases a@.len() - i,
    {
        if i == a.len() {
            proof {
                assert(a@.skip(i as int).len() == 0);
            }
            return true;
        }
        if i == b.len() {
            proof {
                assert(b@.skip(i as int).len() == 0);
                assert(a@.skip(i as int).len() > 0);
            }
            return false;
        }
        let x = a[i];
        let y = b[i];
        if x < y {
            return true;
        }
        if x > y {
            return false;
        }
        proof {
            assert(a@.skip(i as int).drop_first() =~= a@.skip(i as int + 1));
            assert(b@.skip(i as int).drop_first() =~= b@.skip(i as int + 1));
        }
        i = i + 1;
    }
}

/// Inserts a parameter after every element whose key does not come after
/// its own, keeping the insertion stable for equal keys.
pub open spec fn insert_sorted(p: ParamView, s: Seq<ParamView>) -> Seq<ParamView>
    decreases s.len(),
{
    if s.len() == 0 {
        seq![p]
    } else if lex_le(s[0].key, p.key) {
        seq![s[0]] + insert_sorted(p, s.drop_first())
    } else {
        seq![p] + s
    }
}

/// The parameters in the signer's order: sorted by key,
/// byte-lexicographically, stably.
pub open spec fn sort_params(s: Seq<ParamView>) -> Seq<ParamView>
    decreases s.len(),
{
    if s.len() == 0 {
        Seq::empty()
    } else {
        insert_sorted(s.last(), sort_params(s.drop_last()))
    }
}

/// `lex_le` is total: of any two keys, one comes first.
pub proof fn lemma_lex_le_total(a: Seq<u8>, b: Seq<u8>)
    ensures
        lex_le(a, b) || lex_le(b, a),
    decreases a.len(),
{
    if a.len() == 0 {
    } else if b.len() == 0 {
    } else if a[0] < b[0] {
    } else if a[0] > b[0] {
    } else {
        lemma_lex_le_total(a.drop_first(), b.drop_first());
    }
}

/// `lex_le` is transitive.
pub proof fn lemma_lex_le_trans(a: Seq<u8>, b: Seq<u8>, c: Seq<u8>)
    requires
        lex_le(a, b),
        lex_le(b, c),
    ensures
        lex_le(a, c),
    decreases a.len(),
{
    if a.len() == 0 {
    } else if c.len() == 0 {
        assert(b.len() == 0);
        assert(false);
    } else {
        assert(b.len() > 0);
        if a[0] < b[0] {
            assert(b[0] <= c[0]);
        } else {
            assert(a[0] == b[0]);
            if b[0] < c[0] {
            } else {
                assert(b[0] == c[0]);
                lemma_lex_le_trans(a.drop_first(), b.drop_first(), c.drop_first());
            }
        }
    }
}

/// Whether the parameters stand in the signer's order.
pub open spec fn keys_sorted(s: Seq<ParamView>) -> bool {
    forall|i: int, j: int|
        0 <= i < j < s.len() ==> lex_le(#[trigger] s[i].key, #[trigger] s[j].key)
}

/// Inserting into a key-sorted list keeps it sorted and adds exactly the
/// new parameter.
proof fn lemma_insert_sorted_props(p: ParamView, s: Seq<ParamView>)
    requires
        keys_sorted(s),
    ensures
        keys_sorted(insert_sorted(p, s)),
        insert_sorted(p, s).to_multiset() == s.to_multiset().insert(p),
    decreases s.len(),
{
    broadcast use vstd::seq_lib::group_to_multiset_ensures;
    broadcast use vstd::seq_lib::lemma_multiset_commutative;

    if s.len() == 0 {
        assert(seq![p] =~= Seq::<ParamView>::empty().push(p));
        assert(insert_sorted(p, s).to_multiset() =~= s.to_multiset().insert(p));
    } else if lex_le(s[0].key, p.key) {
        let tail = s.drop_first();
        assert(keys_sorted(tail)) by {
            assert forall|i: int, j: int| 0 <= i < j < tail.len() implies lex_le(
                #[trigger] tail[i].key,
                #[trigger] tail[j].key,
            ) by {
                assert(tail[i] == s[i + 1]);
                assert(tail[j] == s[j + 1]);
            }
        }
        lemma_insert_sorted_props(p, tail);
        let tail2 = insert_sorted(p, tail);
        let r = seq![s[0]] + tail2;
        assert(insert_sorted(p, s) == r);
        assert forall|j: int| 0 <= j < tail2.len() implies lex_le(
            s[0].key,
            #[trigger] tail2[j].key,
        ) by {
            let x = tail2[j];
            assert(tail2.contains(x));
            assert(tail2.to_multiset().count(x) > 0);
            if x == p {
            } else {
                assert(tail.to_multiset().count(x) > 0);
                assert(tail.contains(x));
                let k = choose|k: int| 0 <= k < tail.len() && tail[k] == x;
                assert(s[k + 1] == x);
                assert(lex_le(s[0].key, s[k + 1].key));
            }
        }
        assert(keys_sorted(r)) by {
            assert forall|i: int, j: int| 0 <= i < j < r.len() implies lex_le(
                #[trigger] r[i].key,
                #[trigger] r[j].key,
            ) by {
                if i == 0 {
                    assert(r[j] == tail2[j - 1]);
                } else {
                    assert(r[i] == tail2[i - 1]);
                    assert(r[j] == tail2[j - 1]);
                }
            }
        }
        assert(s =~= seq![s[0]] + tail);
        assert(r.to_multiset() =~= s.to_multiset().insert(p));
    } else {
        let r = seq![p] + s;
        assert(insert_sorted(p, s) == r);
        lemma_lex_le_total(s[0].key, p.key);
        assert(lex_le(p.key, s[0].key));
        assert forall|j: int| 0 <= j < s.len() implies lex_le(p.key, #[trigger] s[j].key) by {
            if j > 0 {
                assert(lex_le(s[0].key, s[j].key));
                lemma_lex_le_trans(p.key, s[0].key, s[j].key);
            }
        }
        assert(keys_sorted(r)) by {
            assert forall|i: int, j: int| 0 <= i < j < r.len() implies lex_le(
                #[trigger] r[i].key,
                #[trigger] r[j].key,
            ) by {
                if i == 0 {
                    assert(r[j] == s[j - 1]);
                } else {
                    assert(r[i] == s[i - 1]);
                    assert(r[j] == s[j - 1]);
                }
            }
        }
        assert(r.to_multiset() =~= s.to_multiset().insert(p));
    }
}

/// The signer's order is well formed: sorting arranges the parameters by
/// key and keeps exactly the same parameters, none dropped, none added.
pub proof fn lemma_sort_params_props(s: Seq<ParamView>)
    ensures
        keys_sorted(sort_params(s)),
        sort_params(s).to_multiset() == s.to_multiset(),
    decreases s.len(),
{
    broadcast use vstd::seq_lib::group_to_multiset_ensures;

    if s.len() == 0 {
    } else {
        let pre = s.drop_last();
        lemma_sort_params_props(pre);
        lemma_insert_sorted_props(s.last(), sort_params(pre));
        assert(pre.push(s.last()) =~= s);
        assert(pre.push(s.last()).to_multiset() =~= pre.to_multiset().insert(s.last()));
    }
}

/// One signer pair: the bare key, `=`, the JSON value, `&`.
pub open spec fn sign_pair_of(p: ParamView) -> Seq<u8> {
    p.key + seq![0x3Du8] + json_value_of(p.value) + seq![0x26u8]
}

/// The bytes the WS-API signer signs: every parameter's signer pair, in
/// sorted key order, concatenated — trailing separator included.
pub open spec fn sign_message_of(sorted: Seq<ParamView>) -> Seq<u8> {
    sorted.flat_map(|p: ParamView| sign_pair_of(p))
}

/// Inserting at the first position whose key comes after `p`'s own is
/// what `insert_sorted` does.
proof fn lemma_insert_at(p: ParamView, s: Seq<ParamView>, idx: int)
    requires
        0 <= idx <= s.len(),
        forall|k: int| 0 <= k < idx ==> lex_le(#[trigger] s[k].key, p.key),
        idx < s.len() ==> !lex_le(s[idx].key, p.key),
    ensures
        insert_sorted(p, s) == s.take(idx) + seq![p] + s.skip(idx),
    decreases s.len(),
{
    if s.len() == 0 {
        assert(insert_sorted(p, s) =~= s.take(0) + seq![p] + s.skip(0));
    } else if idx == 0 {
        assert(insert_sorted(p, s) =~= s.take(0) + seq![p] + s.skip(0));
    } else {
        assert(lex_le(s[0].key, p.key));
        lemma_insert_at(p, s.drop_first(), idx - 1);
        assert(s.drop_first().take(idx - 1) =~= s.take(idx).drop_first());
        assert(seq![s[0]] + (s.drop_first().take(idx - 1) + seq![p] + s.drop_first().skip(idx - 1))
            =~= s.take(idx) + seq![p] + s.skip(idx));
    }
}

/// Sorts the parameters by key for the signer, stably.
pub fn sort_by_key(params: Vec<Param>) -> (r: Vec<Param>)
    ensures
        param_views(r@) == sort_params(param_views(params@)),
{
    let ghost orig = params@;
    let mut rest = params;
    let mut out: Vec<Param> = Vec::new();
    let ghost mut i: int = 0;
    proof {
        assert(param_views(out@) =~= Seq::<ParamView>::empty());
        assert(param_views(orig.take(0)) =~= Seq::<ParamView>::empty());
        assert(rest@ =~= orig.skip(0));
    }
    while rest.len() > 0
        invariant
            0 <= i <= orig.len(),
            rest@ == orig.skip(i),
            param_views(out@) == sort_params(param_views(orig.take(i))),
        decreases rest@.len(),
    {
        let p = rest.remove(0);
        proof {
            assert(p == orig[i]);
            assert(rest@ =~= orig.skip(i + 1));
        }
        let mut idx: usize = 0;
        while idx < out.len() && lex_le_bytes(out[idx].key.as_slice(), p.key.as_slice())
            invariant
                idx <= out@.len(),
                forall|k: int|
                    0 <= k < idx ==> lex_le(#[trigger] param_views(out@)[k].key, p@.key),
            decreases out@.len() - idx,
        {
            proof {
                assert(param_views(out@)[idx as int].key == out@[idx as int]@.key);
            }
            idx = idx + 1;
        }
        let ghost old_views = param_views(out@);
        proof {
            if idx < out@.len() {
                assert(!lex_le(out@[idx as int]@.key, p@.key));
                assert(param_views(out@)[idx as int].key == out@[idx as int]@.key);
            }
            lemma_insert_at(p@, old_views, idx as int);
        }
        out.insert(idx, p);
        proof {
            assert(param_views(out@) =~= old_views.take(idx as int) + seq![p@] + old_views.skip(
                idx as int,
            ));
            assert(param_views(out@) == insert_sorted(p@, old_views));
            let taken = param_views(orig.take(i + 1));
            assert(orig.take(i + 1).drop_last() =~= orig.take(i));
            assert(taken.drop_last() =~= param_views(orig.take(i)));
            assert(taken.last() == orig[i]@);
            assert(sort_params(taken) == insert_sorted(orig[i]@, sort_params(
                param_views(orig.take(i)),
            )));
            i = i + 1;
        }
    }
    proof {
        assert(orig.take(i) =~= orig);
    }
    out
}

/// Renders the signer's message: every parameter's `key=value&` pair in
/// sorted key order. This canonicalization is the WS-API's own and is
/// deliberately distinct from the REST query canonicalization.
pub fn ws_sign_message(params: Vec<Param>) -> (r: Vec<u8>)
    ensures
        r@ == sign_message_of(sort_params(param_views(params@))),
{
    let sorted = sort_by_key(params);
    let ghost pv = param_views(sorted@);
    let mut out: Vec<u8> = Vec::new();
    let mut i: usize = 0;
    proof {
        assert(pv.take(0).flat_map(|p: ParamView| sign_pair_of(p)) =~= Seq::<u8>::empty());
    }
    while i < sorted.len()
        invariant
            i <= sorted@.len(),
            pv == param_views(sorted@),
            out@ == pv.take(i as int).flat_map(|p: ParamView| sign_pair_of(p)),
        decreases sorted@.len() - i,
    {
        let p = &sorted[i];
        let mut key_copy = slice_to_vec(p.key.as_slice());
        out.append(&mut key_copy);
        out.push(0x3D);
        push_json_value(&mut out, &p.value);
        out.push(0x26);
        proof {
            pv.lemma_flat_map_take_append(|p: ParamView| sign_pair_of(p), i as int);
            assert(pv[i as int] == sorted@[i as int]@);
            assert(out@ =~= pv.take(i as int + 1).flat_map(|p: ParamView| sign_pair_of(p)));
        }
        i = i + 1;
    }
    proof {
        assert(pv.take(pv.len() as int) =~= pv);
    }
    out
}

/// One member of the `params` object: the quoted key, a colon, the
/// JSON value.
pub open spec fn member_json(p: ParamView) -> Seq<u8> {
    json_quoted(p.key) + seq![0x3Au8] + json_value_of(p.value)
}

/// Joins one more member onto a member list: a comma between members,
/// none before the first.
pub open spec fn join_member(ms: Seq<u8>, m: Seq<u8>) -> Seq<u8> {
    if ms.len() == 0 {
        m
    } else {
        ms + seq![0x2Cu8] + m
    }
}

/// The members of the `params` object, in parameter order.
pub open spec fn members_of(params: Seq<ParamView>) -> Seq<u8>
    decreases params.len(),
{
    if params.len() == 0 {
        Seq::empty()
    } else if params.len() == 1 {
        member_json(params[0])
    } else {
        member_json(params[0]) + seq![0x2Cu8] + members_of(params.drop_first())
    }
}

/// Appending one parameter joins one more member onto the list.
proof fn lemma_members_push(params: Seq<ParamView>, p: ParamView)
    ensures
        members_of(params.push(p)) == join_member(members_of(params), member_json(p)),
    decreases params.len(),
{
    if params.len() == 0 {
        assert(params.push(p)[0] == p);
        assert(members_of(params.push(p)) == member_json(p));
    } else {
        let tail = params.drop_first();
        lemma_members_push(tail, p);
        assert(params.push(p).drop_first() =~= tail.push(p));
        if params.len() == 1 {
            assert(members_of(tail.push(p)) == member_json(p));
        } else {
            assert((member_json(params[0]) + seq![0x2Cu8] + (members_of(tail) + seq![0x2Cu8]
                + member_json(p))) =~= (member_json(params[0]) + seq![0x2Cu8] + members_of(tail))
                + seq![0x2Cu8] + member_json(p));
        }
    }
}

/// Appends one member to `out`.
fn push_member(out: &mut Vec<u8>, p: &Param)
    ensures
        final(out)@ == old(out)@ + member_json(p@),
{
    push_quoted(out, p.key.as_slice());
    out.push(0x3A);
    push_json_value(out, &p.value);
    proof {
        assert(out@ =~= old(out)@ + member_json(p@));
    }
}

/// Renders the member list of the `params` object.
fn members_bytes(params: &Vec<Param>) -> (r: Vec<u8>)
    ensures
        r@ == members_of(param_views(params@)),
{
    let mut r: Vec<u8> = Vec::new();
    let mut i: usize = 0;
    while i < params.len()
        invariant
            i <= params@.len(),
            r@ == members_of(param_views(params@.take(i as int))),
        decreases params@.len() - i,
    {
        if i > 0 {
            r.push(0x2C);
        }
        push_member(&mut r, &params[i]);
        proof {
            params@.lemma_map_take_succ(|p: Param| p@, i as int);
            lemma_members_push(param_views(params@.take(i as int)), params@[i as int]@);
            assert(r@ =~= members_of(param_views(params@.take(i as int + 1))));
        }
        i = i + 1;
    }
    proof {
        assert(params@.take(params@.len() as int) =~= params@);
    }
    r
}

/// The key bytes `apiKey`, the keyed request's credential member name.
pub open spec fn api_key_camel() -> Seq<u8> {
    seq![0x61u8, 0x70u8, 0x69u8, 0x4Bu8, 0x65u8, 0x79u8]
}

/// The key bytes `api_key`, the signed request's credential member name.
pub open spec fn api_key_snake() -> Seq<u8> {
    seq![0x61u8, 0x70u8, 0x69u8, 0x5Fu8, 0x6Bu8, 0x65u8, 0x79u8]
}

/// The key bytes `signature`.
pub open spec fn signature_name() -> Seq<u8> {
    seq![0x73u8, 0x69u8, 0x67u8, 0x6Eu8, 0x61u8, 0x74u8, 0x75u8, 0x72u8, 0x65u8]
}

/// A member holding a string value under a fixed key.
pub open spec fn text_member(name: Seq<u8>, value: Seq<u8>) -> Seq<u8> {
    json_quoted(name) + seq![0x3Au8] + json_quoted(value)
}

/// The whole message: `{"id":<id>,"method":<method>,"params":{<members>}}`.
pub open spec fn ws_message_of(id: u64, method: Seq<u8>, members: Seq<u8>) -> Seq<u8> {
    seq![0x7Bu8, 0x22u8, 0x69u8, 0x64u8, 0x22u8, 0x3Au8] + dec_of(id as int) + seq![
        0x2Cu8,
        0x22u8,
        0x6Du8,
        0x65u8,
        0x74u8,
        0x68u8,
        0x6Fu8,
        0x64u8,
        0x22u8,
        0x3Au8,
    ] + json_quoted(method) + seq![
        0x2Cu8,
        0x22u8,
        0x70u8,
        0x61u8,
        0x72u8,
        0x61u8,
        0x6Du8,
        0x73u8,
        0x22u8,
        0x3Au8,
        0x7Bu8,
    ] + members + seq![0x7Du8, 0x7Du8]
}

/// One WS-API request, rendered and ready to send as a text frame.
#[derive(Debug)]
pub struct WsApiRequest {
    pub raw: Vec<u8>,
}

/// The rate-limit usage a WS-API response reports alongside its result.
#[derive(Debug)]
pub struct RateLimit {
    pub rate_limit_type: String,
    pub interval: String,
    pub interval_num: u64,
    pub limit: u64,
    pub count: u64,
}

/// Assembles the full message around a rendered member list.
fn assemble_message(id: u64, method: &str, members: Vec<u8>) -> (r: WsApiRequest)
    ensures
        r.raw@ == ws_message_of(id, encode_utf8(method@), members@),
{
    let mut raw: Vec<u8> = Vec::new();
    raw.push(0x7B);
    raw.push(0x22);
    raw.push(0x69);
    raw.push(0x64);
    raw.push(0x22);
    raw.push(0x3A);
    let mut id_dec = u64_to_dec(id);
    raw.append(&mut id_dec);
    raw.push(0x2C);
    raw.push(0x22);
    raw.push(0x6D);
    raw.push(0x65);
    raw.push(0x74);
    raw.push(0x68);
    raw.push(0x6F);
    raw.push(0x64);
    raw.push(0x22);
    raw.push(0x3A);
    push_quoted(&mut raw, method.as_bytes());
    raw.push(0x2C);
    raw.push(0x22);
    raw.push(0x70);
    raw.push(0x61);
    raw.push(0x72);
    raw.push(0x61);
    raw.push(0x6D);
    raw.push(0x73);
    raw.push(0x22);
    raw.push(0x3A);
    raw.push(0x7B);
    let mut ms = members;
    raw.append(&mut ms);
    raw.push(0x7D);
    raw.push(0x7D);
    proof {
        assert(raw@ =~= ws_message_of(id, encode_utf8(method@), members@));
    }
    WsApiRequest { raw }
}

/// Builds a public WS-API message: the parameters alone.
pub fn ws_public_message(id: u64, method: &str, params: Vec<Param>) -> (r: WsApiRequest)
    ensures
        r.raw@ == ws_message_of(id, encode_utf8(method@), members_of(param_views(params@))),
{
    let members = members_bytes(&params);
    assemble_message(id, method, members)
}

/// Builds a keyed WS-API message: the parameters with the API key joined
/// on under `apiKey`.
pub fn ws_keyed_message(id: u64, method: &str, params: Vec<Param>, api_key: &str) -> (r:
    WsApiRequest)
    ensures
        r.raw@ == ws_message_of(
            id,
            encode_utf8(method@),
            join_member(
                members_of(param_views(params@)),
                text_member(api_key_camel(), encode_utf8(api_key@)),
            ),
        ),
{
    let mut members = members_bytes(&params);
    if members.len() > 0 {
        members.push(0x2C);
    }
    push_quoted_name_value(&mut members, NameChoice::ApiKeyCamel, api_key.as_bytes());
    assemble_message(id, method, members)
}

/// Which fixed member name to emit.
enum NameChoice {
    ApiKeyCamel,
    ApiKeySnake,
    SignatureName,
}

/// Appends `"name":"value"` for one of the fixed member names.
fn push_quoted_name_value(out: &mut Vec<u8>, name: NameChoice, value: &[u8])
    ensures
        final(out)@ == old(out)@ + text_member(
            match name {
                NameChoice::ApiKeyCamel => api_key_camel(),
                NameChoice::ApiKeySnake => api_key_snake(),
                NameChoice::SignatureName => signature_name(),
            },
            value@,
        ),
{
    let mut name_bytes: Vec<u8> = Vec::new();
    match name {
        NameChoice::ApiKeyCamel => {
            name_bytes.push(0x61);
            name_bytes.push(0x70);
            name_bytes.push(0x69);
            name_bytes.push(0x4B);
            name_bytes.push(0x65);
            name_bytes.push(0x79);
            proof {
                assert(name_bytes@ =~= api_key_camel());
            }
        },
        NameChoice::ApiKeySnake => {
            name_bytes.push(0x61);
            name_bytes.push(0x70);
            name_bytes.push(0x69);
            name_bytes.push(0x5F);
            name_bytes.push(0x6B);
            name_bytes.push(0x65);
            name_bytes.push(0x79);
            proof {
                assert(name_bytes@ =~= api_key_snake());
            }
        },
        NameChoice::SignatureName => {
            name_bytes.push(0x73);
            name_bytes.push(0x69);
            name_bytes.push(0x67);
            name_bytes.push(0x6E);
            name_bytes.push(0x61);
            name_bytes.push(0x74);
            name_bytes.push(0x75);
            name_bytes.push(0x72);
            name_bytes.push(0x65);
            proof {
                assert(name_bytes@ =~= signature_name());
            }
        },
    }
    push_quoted(out, name_bytes.as_slice());
    out.push(0x3A);
    push_quoted(out, value);
    proof {
        assert(out@ =~= old(out)@ + text_member(
            match name {
                NameChoice::ApiKeyCamel => api_key_camel(),
                NameChoice::ApiKeySnake => api_key_snake(),
                NameChoice::SignatureName => signature_name(),
            },
            value@,
        ));
    }
}

/// Builds a signed WS-API message: the parameters with the API key
/// joined on under `api_key` and the signature under `signature`. The
/// signature is the HMAC-SHA256, under the secret, of the signer's
/// sorted `key=value&` rendering of the parameters alone — credentials
/// are never part of the signed bytes.
pub fn ws_signed_message(
    id: u64,
    method: &str,
    params: Vec<Param>,
    api_key: &str,
    api_secret: &str,
) -> (r: WsApiRequest)
    ensures
        r.raw@ == ws_message_of(
            id,
            encode_utf8(method@),
            join_member(
                join_member(
                    members_of(param_views(params@)),
                    text_member(api_key_snake(), encode_utf8(api_key@)),
                ),
                text_member(
                    signature_name(),
                    signature_of(
                        encode_utf8(api_secret@),
                        sign_message_of(sort_params(param_views(params@))),
                    ),
                ),
            ),
        ),
{
    let mut members = members_bytes(&params);
    let ghost base_members = members@;
    let sign_params = clone_params(&params);
    let message = ws_sign_message(sign_params);
    let secret_bytes = api_secret.as_bytes_vec();
    let sig = signature_bytes(secret_bytes.as_slice(), message.as_slice());
    if members.len() > 0 {
        members.push(0x2C);
    }
    push_quoted_name_value(&mut members, NameChoice::ApiKeySnake, api_key.as_bytes());
    let ghost keyed_members = members@;
    proof {
        assert(keyed_members =~= join_member(
            base_members,
            text_member(api_key_snake(), encode_utf8(api_key@)),
        ));
        assert(keyed_members.len() > 0);
    }
    members.push(0x2C);
    push_quoted_name_value(&mut members, NameChoice::SignatureName, sig.as_slice());
    proof {
        assert(members@ =~= join_member(
            keyed_members,
            text_member(
                signature_name(),
                signature_of(
                    encode_utf8(api_secret@),
                    sign_message_of(sort_params(param_views(params@))),
                ),
            ),
        ));
    }
    assemble_message(id, method, members)
}

/// Copies a parameter list.
fn clone_params(params: &Vec<Param>) -> (r: Vec<Param>)
    ensures
        param_views(r@) == param_views(params@),
{
    let mut r: Vec<Param> = Vec::new();
    let mut i: usize = 0;
    proof {
        assert(param_views(r@) =~= param_views(params@.take(0)));
    }
    while i < params.len()
        invariant
            i <= params@.len(),
            param_views(r@) == param_views(params@.take(i as int)),
        decreases params@.len() - i,
    {
        let p = &params[i];
        let key = slice_to_vec(p.key.as_slice());
        let value = match &p.value {
            ParamValue::Text(t) => ParamValue::Text(slice_to_vec(t.as_slice())),
            ParamValue::Unsigned(n) => ParamValue::Unsigned(*n),
            ParamValue::Boolean(b) => ParamValue::Boolean(*b),
        };
        r.push(Param { key, value });
        proof {
            params@.lemma_map_take_succ(|p: Param| p@, i as int);
            assert(param_views(r@) =~= param_views(params@.take(i as int + 1)));
        }
        i = i + 1;
    }
    proof {
        assert(params@.take(params@.len() as int) =~= params@);
    }
    r
}

/// A request sent over the WS-API without credentials.
pub trait WsApiPublicRequest {
    /// The operation's method name.
    spec fn method_name(&self) -> Seq<char>;

    /// The request's parameter list.
    spec fn ws_param_list(&self) -> Seq<ParamView>;

    fn method(&self) -> (r: String)
        ensures
            r@ == self.method_name(),
    ;

    fn ws_params(&self) -> (r: Vec<Param>)
        ensures
            param_views(r@) == self.ws_param_list(),
    ;
}

/// A request sent over the WS-API with the API key attached.
pub trait WsApiKeyedRequest {
    /// The operation's method name.
    spec fn method_name(&self) -> Seq<char>;

    /// The request's parameter list.
    spec fn ws_param_list(&self) -> Seq<ParamView>;

    fn method(&self) -> (r: String)
        ensures
            r@ == self.method_name(),
    ;

    fn ws_params(&self) -> (r: Vec<Param>)
        ensures
            param_views(r@) == self.ws_param_list(),
    ;
}

/// A request sent over the WS-API with the API key and a signature.
pub trait WsApiSignedRequest {
    /// The operation's method name.
    spec fn method_name(&self) -> Seq<char>;

    /// The request's parameter list, timestamp included.
    spec fn ws_param_list(&self) -> Seq<ParamView>;

    /// The request's timestamp field.
    spec fn spec_timestamp(&self) -> u64;

    /// The request's receive window, or the default.
    spec fn spec_recv_window(&self) -> u64;

    fn method(&self) -> (r: String)
        ensures
            r@ == self.method_name(),
    ;

    fn ws_params(&self) -> (r: Vec<Param>)
        ensures
            param_views(r@) == self.ws_param_list(),
    ;

    fn timestamp(&self) -> (r: u64)
        ensures
            r == self.spec_timestamp(),
    ;

    fn recv_window(&self) -> (r: u64)
        ensures
            r == self.spec_recv_window(),
    ;
}

/// The typed responses a WS-API connection can decode.
pub trait WsApiResponse {

}

/// Builds the message of a public WS-API request.
pub fn build_public<R: WsApiPublicRequest>(req: &R, id: u64) -> (r: WsApiRequest)
    ensures
        r.raw@ == ws_message_of(
            id,
            encode_utf8(req.method_name()),
            members_of(req.ws_param_list()),
        ),
{
    let method = req.method();
    let params = req.ws_params();
    ws_public_message(id, method.as_str(), params)
}

/// Builds the message of a keyed WS-API request.
pub fn build_keyed<R: WsApiKeyedRequest>(req: &R, id: u64, api_key: &str) -> (r: WsApiRequest)
    ensures
        r.raw@ == ws_message_of(
            id,
            encode_utf8(req.method_name()),
            join_member(
                members_of(req.ws_param_list()),
                text_member(api_key_camel(), encode_utf8(api_key@)),
            ),
        ),
{
    let method = req.method();
    let params = req.ws_params();
    ws_keyed_message(id, method.as_str(), params, api_key)
}

/// Builds the message of a signed WS-API request.
pub fn build_signed<R: WsApiSignedRequest>(
    req: &R,
    id: u64,
    api_key: &str,
    api_secret: &str,
) -> (r: WsApiRequest)
    ensures
        r.raw@ == ws_message_of(
            id,
            encode_utf8(req.method_name()),
            join_member(
                join_member(
                    members_of(req.ws_param_list()),
                    text_member(api_key_snake(), encode_utf8(api_key@)),
                ),
                text_member(
                    signature_name(),
                    signature_of(
                        encode_utf8(api_secret@),
                        sign_message_of(sort_params(req.ws_param_list())),
                    ),
                ),
            ),
        ),
{
    let method = req.method();
    let params = req.ws_params();
    ws_signed_message(id, method.as_str(), params, api_key, api_secret)
}

} // verus!
