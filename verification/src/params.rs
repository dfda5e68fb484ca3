//! The outbound parameter set: an ordered list of named scalar values and
//! its canonical, deterministic query-string rendering. The canonical bytes
//! are both what is transmitted and what a signed request's signature is
//! computed over, so the rendering is pinned down exactly.

use vstd::prelude::*;
use vstd::string::StringSliceAdditionalSpecFns;
use vstd::string::StrSliceExecFns;
use vstd::utf8::encode_utf8;
use crate::encoding::{dec_of, pct_of, u64_to_dec, pct_encode};

verus! {

/// One scalar parameter value.
#[derive(Debug)]
pub enum ParamValue {
    /// Free text; percent-encoded in the query rendering.
    Text(Vec<u8>),
    /// An unsigned integer; rendered in decimal.
    Unsigned(u64),
    /// A boolean; rendered as `true` or `false`.
    Boolean(bool),
}

/// One named parameter.
#[derive(Debug)]
pub struct Param {
    pub key: Vec<u8>,
    pub value: ParamValue,
}

/// The mathematical value of a `ParamValue`.
pub enum ParamValueView {
    Text(Seq<u8>),
    Unsigned(u64),
    Boolean(bool),
}

/// The mathematical value of a `Param`: its key bytes and its value.
pub struct ParamView {
    pub key: Seq<u8>,
    pub value: ParamValueView,
}

impl View for ParamValue {
    type V = ParamValueView;

    open spec fn view(&self) -> ParamValueView {
        match self {
            ParamValue::Text(t) => ParamValueView::Text(t@),
            ParamValue::Unsigned(n) => ParamValueView::Unsigned(*n),
            ParamValue::Boolean(b) => ParamValueView::Boolean(*b),
        }
    }
}

impl View for Param {
    type V = ParamView;

    open spec fn view(&self) -> ParamView {
        ParamView { key: self.key@, value: self.value@ }
    }
}

/// The views of a list of parameters.
pub open spec fn param_views(s: Seq<Param>) -> Seq<ParamView> {
    s.map_values(|p: Param| p@)
}

/// The query rendering of one value.
pub open spec fn value_bytes(v: ParamValueView) -> Seq<u8> {
    match v {
        ParamValueView::Text(t) => pct_of(t),
        ParamValueView::Unsigned(n) => dec_of(n as int),
        ParamValueView::Boolean(b) => if b {
            seq![0x74u8, 0x72u8, 0x75u8, 0x65u8]
        } else {
            seq![0x66u8, 0x61u8, 0x6Cu8, 0x73u8, 0x65u8]
        },
    }
}

/// The query rendering of one `key=value` pair.
pub open spec fn pair_bytes(p: ParamView) -> Seq<u8> {
    pct_of(p.key) + seq![0x3Du8] + value_bytes(p.value)
}

/// The canonical rendering of an ordered parameter list: the pairs in
/// order, joined by `&`, with no leading or trailing separator.
pub open spec fn canonical_of(params: Seq<ParamView>) -> Seq<u8>
    decreases params.len(),
{
    if params.len() == 0 {
        Seq::empty()
    } else if params.len() == 1 {
        pair_bytes(params[0])
    } else {
        pair_bytes(params[0]) + seq![0x26u8] + canonical_of(params.drop_first())
    }
}

/// Appending one more parameter extends the canonical rendering by a
/// separator (when the list was non-empty) and the new pair.
pub proof fn lemma_canonical_push(params: Seq<ParamView>, p: ParamView)
    ensures
        params.len() == 0 ==> canonical_of(params.push(p)) == pair_bytes(p),
        params.len() > 0 ==> canonical_of(params.push(p)) == canonical_of(params) + seq![0x26u8]
            + pair_bytes(p),
    decreases params.len(),
{
    if params.len() == 0 {
        assert(params.push(p)[0] == p);
        assert(canonical_of(params.push(p)) == pair_bytes(p));
    } else {
        let tail = params.drop_first();
        lemma_canonical_push(tail, p);
        assert(params.push(p).drop_first() =~= tail.push(p));
        if params.len() == 1 {
            assert(canonical_of(params.push(p)) == pair_bytes(params[0]) + seq![0x26u8]
                + canonical_of(tail.push(p)));
            assert(canonical_of(tail.push(p)) == pair_bytes(p));
            assert(canonical_of(params) == pair_bytes(params[0]));
        } else {
            assert(canonical_of(params.push(p)) == pair_bytes(params.push(p)[0]) + seq![0x26u8]
                + canonical_of(tail.push(p)));
            assert(canonical_of(tail.push(p)) == canonical_of(tail) + seq![0x26u8] + pair_bytes(p));
            assert(canonical_of(params) == pair_bytes(params[0]) + seq![0x26u8] + canonical_of(
                tail,
            ));
            assert((pair_bytes(params[0]) + seq![0x26u8] + (canonical_of(tail) + seq![0x26u8]
                + pair_bytes(p))) =~= (pair_bytes(params[0]) + seq![0x26u8] + canonical_of(tail))
                + seq![0x26u8] + pair_bytes(p));
        }
    }
}

/// Renders one value.
pub fn encode_value(v: &ParamValue) -> (r: Vec<u8>)
    ensures
        r@ == value_bytes(v@),
{
    match v {
        ParamValue::Text(t) => pct_encode(t.as_slice()),
        ParamValue::Unsigned(n) => u64_to_dec(*n),
        ParamValue::Boolean(b) => {
            let mut r: Vec<u8> = Vec::new();
            if *b {
                r.push(0x74);
                r.push(0x72);
                r.push(0x75);
                r.push(0x65);
            } else {
                r.push(0x66);
                r.push(0x61);
                r.push(0x6C);
                r.push(0x73);
                r.push(0x65);
            }
            proof {
                assert(r@ =~= value_bytes(v@));
            }
            r
        },
    }
}

/// Appends the rendering of one `key=value` pair to `out`.
fn push_pair(out: &mut Vec<u8>, p: &Param)
    ensures
        final(out)@ == old(out)@ + pair_bytes(p@),
{
    let mut k = pct_encode(p.key.as_slice());
    let mut v = encode_value(&p.value);
    out.append(&mut k);
    out.push(0x3D);
    out.append(&mut v);
    proof {
        assert(out@ =~= old(out)@ + pair_bytes(p@));
    }
}

/// Renders an ordered parameter list as its canonical query bytes.
///
/// The rendering is a pure function of the list, so encoding the same
/// list twice always yields byte-identical output.
pub fn encode_params(params: &Vec<Param>) -> (r: Vec<u8>)
    ensures
        r@ == canonical_of(param_views(params@)),
{
    let mut r: Vec<u8> = Vec::new();
    let mut i: usize = 0;
    while i < params.len()
        invariant
            i <= params@.len(),
            r@ == canonical_of(param_views(params@.take(i as int))),
        decreases params@.len() - i,
    {
        if i > 0 {
            r.push(0x26);
        }
        push_pair(&mut r, &params[i]);
        proof {
            params@.lemma_map_take_succ(|p: Param| p@, i as int);
            lemma_canonical_push(param_views(params@.take(i as int)), params@[i as int]@);
        }
        i = i + 1;
    }
    proof {
        assert(params@.take(params@.len() as int) =~= params@);
    }
    r
}

/// A text parameter's view.
pub open spec fn pv_text(key: Seq<char>, value: Seq<char>) -> ParamView {
    ParamView { key: encode_utf8(key), value: ParamValueView::Text(encode_utf8(value)) }
}

/// An unsigned integer parameter's view.
pub open spec fn pv_uint(key: Seq<char>, value: u64) -> ParamView {
    ParamView { key: encode_utf8(key), value: ParamValueView::Unsigned(value) }
}

/// A boolean parameter's view.
pub open spec fn pv_bool(key: Seq<char>, value: bool) -> ParamView {
    ParamView { key: encode_utf8(key), value: ParamValueView::Boolean(value) }
}

/// Builds a text parameter from a key and a value.
pub fn text_param(key: &str, value: &str) -> (r: Param)
    ensures
        r@ == (ParamView {
            key: encode_utf8(key@),
            value: ParamValueView::Text(encode_utf8(value@)),
        }),
{
    Param { key: key.as_bytes_vec(), value: ParamValue::Text(value.as_bytes_vec()) }
}

/// Builds an unsigned integer parameter.
pub fn uint_param(key: &str, value: u64) -> (r: Param)
    ensures
        r@ == (ParamView { key: encode_utf8(key@), value: ParamValueView::Unsigned(value) }),
{
    Param { key: key.as_bytes_vec(), value: ParamValue::Unsigned(value) }
}

/// Builds a boolean parameter.
pub fn bool_param(key: &str, value: bool) -> (r: Param)
    ensures
        r@ == (ParamView { key: encode_utf8(key@), value: ParamValueView::Boolean(value) }),
{
    Param { key: key.as_bytes_vec(), value: ParamValue::Boolean(value) }
}

/// Appends a text parameter.
pub fn push_text_param(r: &mut Vec<Param>, key: &str, value: &str)
    ensures
        param_views(final(r)@) == param_views(old(r)@) + seq![pv_text(key@, value@)],
{
    r.push(text_param(key, value));
    proof {
        assert(param_views(r@) =~= param_views(old(r)@) + seq![pv_text(key@, value@)]);
    }
}

/// Appends a text parameter when the value is given.
pub fn push_opt_text_param(r: &mut Vec<Param>, key: &str, value: &Option<String>)
    ensures
        param_views(final(r)@) == param_views(old(r)@) + (if value is Some {
            seq![pv_text(key@, value->0@)]
        } else {
            Seq::empty()
        }),
{
    if let Some(v) = value {
        r.push(text_param(key, v.as_str()));
    }
    proof {
        assert(param_views(r@) =~= param_views(old(r)@) + (if value is Some {
            seq![pv_text(key@, value->0@)]
        } else {
            Seq::empty()
        }));
    }
}

/// Appends an unsigned integer parameter when the value is given.
pub fn push_opt_uint_param(r: &mut Vec<Param>, key: &str, value: &Option<u64>)
    ensures
        param_views(final(r)@) == param_views(old(r)@) + (if value is Some {
            seq![pv_uint(key@, value->0)]
        } else {
            Seq::empty()
        }),
{
    if let Some(v) = value {
        r.push(uint_param(key, *v));
    }
    proof {
        assert(param_views(r@) =~= param_views(old(r)@) + (if value is Some {
            seq![pv_uint(key@, value->0)]
        } else {
            Seq::empty()
        }));
    }
}

/// Appends a boolean parameter when the value is given.
pub fn push_opt_bool_param(r: &mut Vec<Param>, key: &str, value: &Option<bool>)
    ensures
        param_views(final(r)@) == param_views(old(r)@) + (if value is Some {
            seq![pv_bool(key@, value->0)]
        } else {
            Seq::empty()
        }),
{
    if let Some(v) = value {
        r.push(bool_param(key, *v));
    }
    proof {
        assert(param_views(r@) =~= param_views(old(r)@) + (if value is Some {
            seq![pv_bool(key@, value->0)]
        } else {
            Seq::empty()
        }));
    }
}

/// Determinism of the canonical rendering: any two encodings of the same
/// parameter list are byte-identical. This is what makes a computed
/// signature stable across retries of the same request value.
pub proof fn lemma_encode_deterministic(params: Seq<ParamView>, r1: Seq<u8>, r2: Seq<u8>)
    requires
        r1 == canonical_of(params),
        r2 == canonical_of(params),
    ensures
        r1 == r2,
{
}

} // verus!
