//! The signing and dispatch engine: turns an endpoint descriptor, a
//! parameter list and credentials into exactly the wire image of one HTTP
//! request — URL, headers and body — with the authorization tier's
//! requirements enforced before any network call is attempted.

use vstd::prelude::*;
use vstd::string::StringSliceAdditionalSpecFns;
use vstd::string::StrSliceExecFns;
use vstd::string::StringExecFns;
use vstd::utf8::encode_utf8;
use crate::params::{
    Param,
    ParamValue,
    ParamView,
    ParamValueView,
    param_views,
    canonical_of,
    encode_params,
};
use crate::sign::{signature_of, signature_bytes};

verus! {

/// The HTTP method of an endpoint.
#[derive(Clone, Copy, Debug, PartialEq, Eq, Structural)]
pub enum HttpMethod {
    Get,
    Post,
    Put,
    Delete,
}

/// The three authorization tiers a request can require. `Signed` implies
/// `KeyOnly` behaviour: a signed request also carries the API-key header.
#[derive(Clone, Copy, Debug, PartialEq, Eq, Structural)]
pub enum Tier {
    Public,
    KeyOnly,
    Signed,
}

/// The per-endpoint contract: HTTP method, path and authorization tier.
#[derive(Debug)]
pub struct Descriptor {
    pub method: HttpMethod,
    pub path: String,
    pub tier: Tier,
}

/// The credentials a client instance owns for its whole lifetime.
#[derive(Debug)]
pub struct Credentials {
    pub api_key: Option<String>,
    pub api_secret: Option<String>,
}

/// One outbound HTTP header.
#[derive(Debug)]
pub struct Header {
    pub name: String,
    pub value: String,
}

/// The mathematical value of a header: its name and value characters.
pub struct HeaderView {
    pub name: Seq<char>,
    pub value: Seq<char>,
}

impl View for Header {
    type V = HeaderView;

    open spec fn view(&self) -> HeaderView {
        HeaderView { name: self.name@, value: self.value@ }
    }
}

/// A configuration error detected before any network call.
#[derive(Clone, Copy, Debug, PartialEq, Eq, Structural)]
pub enum BuildError {
    /// The tier requires the API-key header but no key is configured.
    MissingApiKey,
    /// The tier requires a signature but no secret is configured.
    MissingApiSecret,
}

/// The exact wire image of one outbound request.
#[derive(Debug)]
pub struct PreparedRequest {
    pub method: HttpMethod,
    pub url: Vec<u8>,
    pub headers: Vec<Header>,
    pub body: Vec<u8>,
}

/// The key bytes of the appended `timestamp` parameter.
pub open spec fn timestamp_key() -> Seq<u8> {
    seq![0x74u8, 0x69u8, 0x6Du8, 0x65u8, 0x73u8, 0x74u8, 0x61u8, 0x6Du8, 0x70u8]
}

/// The key bytes of the appended `recvWindow` parameter.
pub open spec fn recv_window_key() -> Seq<u8> {
    seq![0x72u8, 0x65u8, 0x63u8, 0x76u8, 0x57u8, 0x69u8, 0x6Eu8, 0x64u8, 0x6Fu8, 0x77u8]
}

/// The key bytes of the final `signature` query parameter.
pub open spec fn signature_key() -> Seq<u8> {
    seq![0x73u8, 0x69u8, 0x67u8, 0x6Eu8, 0x61u8, 0x74u8, 0x75u8, 0x72u8, 0x65u8]
}

/// The `recvWindow` value used when the caller supplies none.
pub open spec fn default_recv_window() -> u64 {
    5000
}

/// The parameter list as transmitted: for a signed request, the caller's
/// parameters with `timestamp` and `recvWindow` appended, in that order;
/// for the other tiers, the caller's parameters unchanged.
pub open spec fn effective_params(tier: Tier, pv: Seq<ParamView>, ts: u64, rw: u64) -> Seq<
    ParamView,
> {
    if tier is Signed {
        pv.push(ParamView { key: timestamp_key(), value: ParamValueView::Unsigned(ts) }).push(
            ParamView { key: recv_window_key(), value: ParamValueView::Unsigned(rw) },
        )
    } else {
        pv
    }
}

/// The secret bytes the signature is keyed with.
pub open spec fn secret_bytes_of(creds: Credentials) -> Seq<u8> {
    if creds.api_secret is Some {
        encode_utf8(creds.api_secret->0@)
    } else {
        Seq::empty()
    }
}

/// The configured API key's characters.
pub open spec fn api_key_of(creds: Credentials) -> Seq<char> {
    if creds.api_key is Some {
        creds.api_key->0@
    } else {
        Seq::empty()
    }
}

/// Which configuration error, if any, a build must fail with: a non-public
/// tier without a key fails with `MissingApiKey`; a signed tier with a key
/// but no secret fails with `MissingApiSecret`.
pub open spec fn build_outcome(tier: Tier, has_key: bool, has_secret: bool) -> Option<BuildError> {
    if !(tier is Public) && !has_key {
        Some(BuildError::MissingApiKey)
    } else if tier is Signed && !has_secret {
        Some(BuildError::MissingApiSecret)
    } else {
        None
    }
}

/// The `signature=<hex>` pair appended to a signed request's query.
pub open spec fn signature_pair(secret: Seq<u8>, eff: Seq<ParamView>) -> Seq<u8> {
    signature_key() + seq![0x3Du8] + signature_of(secret, canonical_of(eff))
}

/// The query part of the URL: the canonical parameters for a GET, nothing
/// for other methods, with the signature pair appended last for a signed
/// request. The signature is computed over exactly the canonical bytes
/// transmitted (query for GET, body otherwise) and never placed in a body.
pub open spec fn query_of(tier: Tier, method: HttpMethod, eff: Seq<ParamView>, secret: Seq<u8>) -> Seq<
    u8,
> {
    let data = if method is Get {
        canonical_of(eff)
    } else {
        Seq::empty()
    };
    if tier is Signed {
        if data.len() == 0 {
            signature_pair(secret, eff)
        } else {
            data + seq![0x26u8] + signature_pair(secret, eff)
        }
    } else {
        data
    }
}

/// The body: the canonical parameters for a non-GET request, else empty.
pub open spec fn body_of(method: HttpMethod, eff: Seq<ParamView>) -> Seq<u8> {
    if method is Get {
        Seq::empty()
    } else {
        canonical_of(eff)
    }
}

/// Whether the URL carries a `?` query part at all.
pub open spec fn has_query(tier: Tier, method: HttpMethod) -> bool {
    method is Get || tier is Signed
}

/// The full request URL in UTF-8 bytes.
pub open spec fn url_of(
    base: Seq<char>,
    path: Seq<char>,
    tier: Tier,
    method: HttpMethod,
    eff: Seq<ParamView>,
    secret: Seq<u8>,
) -> Seq<u8> {
    let head = encode_utf8(base) + encode_utf8(path);
    if has_query(tier, method) {
        head + seq![0x3Fu8] + query_of(tier, method, eff, secret)
    } else {
        head
    }
}

/// The outbound headers: always the user agent; for the keyed and signed
/// tiers additionally the API key under `x-mbx-apikey`. A public request
/// never carries a credential header.
pub open spec fn headers_of(tier: Tier, key: Seq<char>) -> Seq<HeaderView> {
    let ua = HeaderView { name: "user-agent"@, value: "binance-async-api"@ };
    if tier is Public {
        seq![ua]
    } else {
        seq![ua, HeaderView { name: "x-mbx-apikey"@, value: key }]
    }
}

/// Tier correctness, public half: whatever key is configured, a public
/// request's headers never include the API-key header.
pub proof fn lemma_public_never_keyed(key: Seq<char>)
    ensures
        forall|i: int|
            0 <= i < headers_of(Tier::Public, key).len() ==> headers_of(Tier::Public, key)[i].name
                != "x-mbx-apikey"@,
{
    reveal_strlit("user-agent");
    reveal_strlit("x-mbx-apikey");
    assert(headers_of(Tier::Public, key)[0].name == "user-agent"@);
    assert("user-agent"@.len() != "x-mbx-apikey"@.len());
}

/// Tier correctness, key half: a keyed or signed request without a
/// configured key fails with `MissingApiKey`, whether or not a secret is
/// configured.
pub proof fn lemma_missing_key_rejected(tier: Tier, has_secret: bool)
    requires
        !(tier is Public),
    ensures
        build_outcome(tier, false, has_secret) == Some(BuildError::MissingApiKey),
{
}

/// Tier correctness, secret half: a signed request with a key but without
/// a secret fails with `MissingApiSecret`.
pub proof fn lemma_missing_secret_rejected()
    ensures
        build_outcome(Tier::Signed, true, false) == Some(BuildError::MissingApiSecret),
{
}

/// Builds the `timestamp` parameter.
fn timestamp_param(ts: u64) -> (r: Param)
    ensures
        r@ == (ParamView { key: timestamp_key(), value: ParamValueView::Unsigned(ts) }),
{
    let mut key: Vec<u8> = Vec::new();
    key.push(0x74);
    key.push(0x69);
    key.push(0x6D);
    key.push(0x65);
    key.push(0x73);
    key.push(0x74);
    key.push(0x61);
    key.push(0x6D);
    key.push(0x70);
    proof {
        assert(key@ =~= timestamp_key());
    }
    Param { key, value: ParamValue::Unsigned(ts) }
}

/// Builds the `recvWindow` parameter.
fn recv_window_param(rw: u64) -> (r: Param)
    ensures
        r@ == (ParamView { key: recv_window_key(), value: ParamValueView::Unsigned(rw) }),
{
    let mut key: Vec<u8> = Vec::new();
    key.push(0x72);
    key.push(0x65);
    key.push(0x63);
    key.push(0x76);
    key.push(0x57);
    key.push(0x69);
    key.push(0x6E);
    key.push(0x64);
    key.push(0x6F);
    key.push(0x77);
    proof {
        assert(key@ =~= recv_window_key());
    }
    Param { key, value: ParamValue::Unsigned(rw) }
}

/// Appends `signature=` to `out`.
fn push_signature_key(out: &mut Vec<u8>)
    ensures
        final(out)@ == old(out)@ + signature_key() + seq![0x3Du8],
{
    out.push(0x73);
    out.push(0x69);
    out.push(0x67);
    out.push(0x6E);
    out.push(0x61);
    out.push(0x74);
    out.push(0x75);
    out.push(0x72);
    out.push(0x65);
    out.push(0x3D);
    proof {
        assert(out@ =~= old(out)@ + signature_key() + seq![0x3Du8]);
    }
}

/// Builds the exact wire image of one request, or the configuration error
/// the tier's requirements force — detected before any network call.
///
/// For a signed request the canonical parameter set gains `timestamp` and
/// `recvWindow` (the supplied window, or the default), and the signature is
/// the HMAC-SHA256 of exactly those canonical bytes under the configured
/// secret, attached as the final query parameter.
pub fn build_request(
    base: &str,
    desc: &Descriptor,
    params: Vec<Param>,
    creds: &Credentials,
    timestamp: u64,
    recv_window: Option<u64>,
) -> (r: Result<PreparedRequest, BuildError>)
    ensures
        ({
            let outcome = build_outcome(desc.tier, creds.api_key is Some, creds.api_secret is Some);
            let rw = recv_window.unwrap_or(default_recv_window());
            let eff = effective_params(desc.tier, param_views(params@), timestamp, rw);
            let secret = secret_bytes_of(*creds);
            match r {
                Err(e) => outcome == Some(e),
                Ok(p) => {
                    &&& outcome is None
                    &&& p.method == desc.method
                    &&& p.url@ == url_of(base@, desc.path@, desc.tier, desc.method, eff, secret)
                    &&& p.body@ == body_of(desc.method, eff)
                    &&& p.headers@.map_values(|h: Header| h@) == headers_of(
                        desc.tier,
                        api_key_of(*creds),
                    )
                },
            }
        }),
{
    let is_public = matches!(desc.tier, Tier::Public);
    let is_signed = matches!(desc.tier, Tier::Signed);
    let api_key: Option<String> = match &creds.api_key {
        Some(k) => Some(k.clone()),
        None => None,
    };
    if !is_public && api_key.is_none() {
        return Err(BuildError::MissingApiKey);
    }
    let secret: Vec<u8> = if is_signed {
        match &creds.api_secret {
            Some(s) => s.as_str().as_bytes_vec(),
            None => {
                return Err(BuildError::MissingApiSecret);
            },
        }
    } else {
        Vec::new()
    };

    let mut params = params;
    if is_signed {
        let rw = match recv_window {
            Some(w) => w,
            None => 5000,
        };
        let ghost before = params@;
        params.push(timestamp_param(timestamp));
        params.push(recv_window_param(rw));
        proof {
            assert(param_views(params@) =~= param_views(before).push(
                ParamView { key: timestamp_key(), value: ParamValueView::Unsigned(timestamp) },
            ).push(ParamView { key: recv_window_key(), value: ParamValueView::Unsigned(rw) }));
        }
    }
    let ghost eff = param_views(params@);
    let mut canon = encode_params(&params);

    let signature: Option<Vec<u8>> = if is_signed {
        Some(signature_bytes(secret.as_slice(), canon.as_slice()))
    } else {
        None
    };

    let is_get = matches!(desc.method, HttpMethod::Get);
    let mut body: Vec<u8> = Vec::new();
    let mut query: Vec<u8> = Vec::new();
    if is_get {
        query.append(&mut canon);
    } else {
        body.append(&mut canon);
    }
    if is_signed {
        if query.len() > 0 {
            query.push(0x26);
        }
        push_signature_key(&mut query);
        let mut sig = signature.unwrap();
        query.append(&mut sig);
    }

    let mut url: Vec<u8> = base.as_bytes_vec();
    let mut path_bytes = desc.path.as_str().as_bytes_vec();
    url.append(&mut path_bytes);
    if is_get || is_signed {
        url.push(0x3F);
        url.append(&mut query);
    }

    let mut headers: Vec<Header> = Vec::new();
    headers.push(
        Header { name: String::from_str("user-agent"), value: String::from_str("binance-async-api") },
    );
    if !is_public {
        headers.push(Header { name: String::from_str("x-mbx-apikey"), value: api_key.unwrap() });
    }

    let prepared = PreparedRequest { method: desc.method, url, headers, body };
    proof {
        assert(prepared.headers@.map_values(|h: Header| h@) =~= headers_of(
            desc.tier,
            api_key_of(*creds),
        ));
        assert(prepared.url@ =~= url_of(
            base@,
            desc.path@,
            desc.tier,
            desc.method,
            eff,
            secret_bytes_of(*creds),
        ));
        assert(prepared.body@ =~= body_of(desc.method, eff));
    }
    Ok(prepared)
}

} // verus!
