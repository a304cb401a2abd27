//! The transport model and the envelope codec.
//!
//! A [`Client`] owns the base URL and the basic-auth credentials of one
//! API session. The verified side builds the full request URL (base
//! join, query attachment, percent-encoding) and classifies raw
//! responses; the actual network round trip is left to the caller,
//! which hands back a [`RawResponse`]. The envelope codec unwraps the
//! resource-name key under which every payload is nested.

use vstd::prelude::*;

use crate::encode::{pairs_view, serialize_pairs, spec_serialize_pairs};
use crate::result::{ShopifyError, ShopifyResult};
use crate::strutil::{chars_to_string, find_from, find_idx, push_char, str_chars, subvec};

verus! {

// ---------------------------------------------------------------------
// Methods and raw responses
// ---------------------------------------------------------------------
/// The HTTP methods the API uses.
#[derive(Clone, Copy, Debug, PartialEq, Eq, Structural)]
pub enum Method {
    Get,
    Post,
    Put,
    Delete,
}

impl Method {
    /// The method name on the wire.
    pub open spec fn spec_name(&self) -> Seq<char> {
        match self {
            Method::Get => "GET"@,
            Method::Post => "POST"@,
            Method::Put => "PUT"@,
            Method::Delete => "DELETE"@,
        }
    }

    /// The method name on the wire.
    pub fn name(&self) -> (r: &'static str)
        ensures
            r@ == self.spec_name(),
    {
        match self {
            Method::Get => "GET",
            Method::Post => "POST",
            Method::Put => "PUT",
            Method::Delete => "DELETE",
        }
    }
}

/// What the library reads of an HTTP response: the status code, the
/// `link` header if one came, and the body, captured eagerly.
#[derive(Debug, Clone)]
pub struct RawResponse {
    pub status: u16,
    pub link: Option<String>,
    pub body: String,
}

impl RawResponse {
    /// Whether the status code is in the 2xx success class.
    pub open spec fn is_success(&self) -> bool {
        200 <= self.status < 300
    }
}

/// Classify a raw response: a 2xx response passes through, a 404
/// becomes `NotFound`, and any other status becomes `Request` carrying
/// the path, the status and the full body.
pub fn classify_response(path: &str, res: RawResponse) -> (r: ShopifyResult<RawResponse>)
    ensures
        match r {
            Ok(out) => res.is_success() && out == res,
            Err(e) => !res.is_success() && if res.status == 404 {
                e is NotFound
            } else {
                e matches ShopifyError::Request { path: p, status, body } && p@ == path@ && status
                    == res.status && body@ == res.body@
            },
        },
{
    if 200 <= res.status && res.status < 300 {
        Ok(res)
    } else if res.status == 404 {
        Err(ShopifyError::NotFound)
    } else {
        Err(
            ShopifyError::Request {
                path: path.to_owned(),
                status: res.status,
                body: res.body,
            },
        )
    }
}

// ---------------------------------------------------------------------
// URL construction (trusted url-crate items and verified assembly)
// ---------------------------------------------------------------------
/// Whether `url::Url::parse` accepts the string as an absolute URL.
pub uninterp spec fn is_wellformed_url(s: Seq<char>) -> bool;

/// Relies on `url::Url::parse`: whether a string parses as an absolute
/// URL depends on the text alone.
#[verifier::external_body]
pub(crate) fn check_url(s: &str) -> (r: bool)
    ensures
        r == is_wellformed_url(s@),
{
    url::Url::parse(s).is_ok()
}

/// The serialization of `path` resolved against `base`, when the url
/// crate can parse `base` and resolve `path` against it.
pub uninterp spec fn url_join(base: Seq<char>, path: Seq<char>) -> Option<Seq<char>>;

/// Relies on `url::Url::parse` and `url::Url::join`: resolving a
/// (possibly relative) path against a base URL depends on the two
/// strings alone.
#[verifier::external_body]
pub(crate) fn join_url(base: &str, path: &str) -> (r: Option<String>)
    ensures
        match r {
            Some(u) => url_join(base@, path@) == Some(u@),
            None => url_join(base@, path@) is None,
        },
{
    match url::Url::parse(base) {
        Ok(b) => match b.join(path) {
            Ok(u) => Some(String::from(u)),
            Err(_) => None,
        },
        Err(_) => None,
    }
}

/// A URL with the serialized `pairs` appended to its query: a `?` is
/// added when the URL has none, an existing non-empty query is extended
/// after a `&`, and the fragment, if any, stays at the end.
pub open spec fn spec_with_query(u: Seq<char>, ps: Seq<(Seq<char>, Seq<char>)>) -> Seq<char> {
    let f = find_idx(u, '#', 0);
    let head = u.take(f);
    let frag = u.skip(f);
    let q = find_idx(head, '?', 0);
    let enc = spec_serialize_pairs(ps);
    if q == head.len() {
        head + seq!['?'] + enc + frag
    } else if q + 1 == head.len() || enc.len() == 0 {
        head + enc + frag
    } else {
        head + seq!['&'] + enc + frag
    }
}

// ---------------------------------------------------------------------
// The client
// ---------------------------------------------------------------------
/// One API session: the base URL and the basic-auth credentials.
/// Immutable once constructed; safe to share across callers.
#[derive(Debug, Clone)]
pub struct Client {
    pub base_url: String,
    pub api_key: String,
    pub password: String,
}

impl Client {
    /// A client whose base URL the url crate accepts.
    pub open spec fn wf(&self) -> bool {
        is_wellformed_url(self.base_url@)
    }

    /// Build a client. An unparseable base URL is a construction-time
    /// `UrlParse` error, not a call-time one.
    pub fn new(base_url: &str, api_key: &str, password: &str) -> (r: ShopifyResult<Client>)
        ensures
            match r {
                Ok(c) => is_wellformed_url(base_url@) && c.wf() && c.base_url@ == base_url@
                    && c.api_key@ == api_key@ && c.password@ == password@,
                Err(e) => !is_wellformed_url(base_url@) && e is UrlParse,
            },
    {
        if check_url(base_url) {
            Ok(
                Client {
                    base_url: base_url.to_owned(),
                    api_key: api_key.to_owned(),
                    password: password.to_owned(),
                },
            )
        } else {
            Err(ShopifyError::UrlParse)
        }
    }

    /// Resolve `path` against the base URL, leaving the query exactly
    /// as the path carries it. A failed join is a `UrlParse` error.
    pub fn build_plain_url(&self, path: &str) -> (r: ShopifyResult<String>)
        ensures
            match r {
                Ok(u) => url_join(self.base_url@, path@) == Option::Some(u@),
                Err(e) => e is UrlParse && url_join(self.base_url@, path@) is None,
            },
    {
        match join_url(self.base_url.as_str(), path) {
            None => Err(ShopifyError::UrlParse),
            Some(joined) => Ok(joined),
        }
    }

    /// Resolve `path` against the base URL and attach the query pairs,
    /// form-urlencoded. A failed join is a `UrlParse` error.
    pub fn build_url(&self, path: &str, pairs: &Vec<(String, String)>) -> (r: ShopifyResult<
        String,
    >)
        ensures
            match r {
                Ok(u) => url_join(self.base_url@, path@) matches Some(j) && u@ == spec_with_query(
                    j,
                    pairs_view(pairs@),
                ),
                Err(e) => e is UrlParse && url_join(self.base_url@, path@) is None,
            },
    {
        match join_url(self.base_url.as_str(), path) {
            None => Err(ShopifyError::UrlParse),
            Some(joined) => {
                let enc = serialize_pairs(pairs);
                let chars = str_chars(joined.as_str());
                let f = find_from(&chars, '#', 0);
                let head = subvec(&chars, 0, f);
                let frag = subvec(&chars, f, chars.len());
                proof {
                    assert(head@ =~= joined@.take(f as int));
                    assert(frag@ =~= joined@.skip(f as int));
                }
                let q = find_from(&head, '?', 0);
                let mut out = chars_to_string(&head);
                if q == head.len() {
                    push_char(&mut out, '?');
                    out.append(enc.as_str());
                } else if q + 1 == head.len() || enc.as_str().is_empty() {
                    out.append(enc.as_str());
                } else {
                    push_char(&mut out, '&');
                    out.append(enc.as_str());
                }
                let fs = chars_to_string(&frag);
                let out = out.concat(fs.as_str());
                proof {
                    assert(out@ =~= spec_with_query(joined@, pairs_view(pairs@)));
                }
                Ok(out)
            },
        }
    }
}

// ---------------------------------------------------------------------
// The envelope codec
// ---------------------------------------------------------------------
/// A wrapper that can give up its inner payload.
pub trait ShopifyWarpper<T> {
    /// The payload inside.
    spec fn spec_inner(self) -> T;

    /// Unwrap the payload.
    fn into_inner(self) -> (r: T)
        ensures
            r == self.spec_inner(),
    ;
}

/// The transient wrapper every API payload arrives in: one
/// resource-name key over the inner value.
pub struct Envelope<T> {
    pub key: String,
    pub value: T,
}

impl<T> ShopifyWarpper<T> for Envelope<T> {
    open spec fn spec_inner(self) -> T {
        self.value
    }

    fn into_inner(self) -> (r: T)
        ensures
            r == self.spec_inner(),
    {
        self.value
    }
}

#[verifier::external_type_specification]
#[verifier::external_body]
pub struct ExValue(serde_json::Value);

/// Whether `serde_json` accepts the string as a JSON document.
pub uninterp spec fn json_parses(s: Seq<char>) -> bool;

/// The document `serde_json` parses a valid JSON string into.
pub uninterp spec fn json_value_of(s: Seq<char>) -> serde_json::Value;

/// Relies on `serde_json::from_str::<Value>`: whether a string is
/// valid JSON, and which document it holds, depend on the text alone.
#[verifier::external_body]
fn parse_json(s: &str) -> (r: Option<serde_json::Value>)
    ensures
        r is Some <==> json_parses(s@),
        r matches Some(v) ==> v == json_value_of(s@),
{
    serde_json::from_str::<serde_json::Value>(s).ok()
}

/// The value a JSON document holds under a top-level key: `None` for a
/// non-object document and for an absent key.
pub uninterp spec fn json_key_of(v: serde_json::Value, key: Seq<char>) -> Option<
    serde_json::Value,
>;

/// Relies on `serde_json::Map::remove`: which value sits under `key`
/// depends on the document and the key alone; a non-object value holds
/// no keys.
#[verifier::external_body]
fn take_key(v: serde_json::Value, key: &str) -> (r: Option<serde_json::Value>)
    ensures
        r == json_key_of(v, key@),
{
    match v {
        serde_json::Value::Object(mut m) => m.remove(key),
        _ => None,
    }
}

/// What the codec returns for each possible unwrapped value: the value
/// when the key was there, `InvalidResponse` when it was not.
pub fn envelope_value(inner: Option<serde_json::Value>) -> (r: ShopifyResult<serde_json::Value>)
    ensures
        match inner {
            Some(v) => r matches Ok(w) && w == v,
            None => r matches Err(e) && e is InvalidResponse,
        },
{
    match inner {
        Some(v) => Ok(v),
        None => Err(ShopifyError::InvalidResponse),
    }
}

/// Decode a JSON body and unwrap the payload nested under `key`: the
/// value under the key when the body parses and carries it, and
/// `InvalidResponse` when the body is not JSON, is not an object, or
/// lacks the key; no other error can come out.
pub fn unwrap_envelope(body: &str, key: &str) -> (r: ShopifyResult<serde_json::Value>)
    ensures
        !json_parses(body@) ==> (r matches Err(e) && e is InvalidResponse),
        json_parses(body@) ==> match json_key_of(json_value_of(body@), key@) {
            Option::Some(v) => r matches Ok(w) && w == v,
            Option::None => r matches Err(e) && e is InvalidResponse,
        },
{
    match parse_json(body) {
        None => Err(ShopifyError::InvalidResponse),
        Some(v) => envelope_value(take_key(v, key)),
    }
}

} // verus!
