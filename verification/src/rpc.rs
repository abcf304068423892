//! The JSON-RPC 1.0 transport core: connection context, request URL
//! routing, HTTP Basic authentication, and the request envelope.
//!
//! The envelope is built here, character for character, against an
//! exact specification: a version tag taken from the context (omitted
//! when unset), a constant placeholder id, the method name, and a
//! positional parameter list whose entries are pre-serialized JSON
//! values spliced in verbatim.

use crate::constants::{
    BITCOIN_JSON_RPC_VERSION, JSON_RPC_AUTH, JSON_RPC_DEFAULT_ADDRESS, JSON_RPC_ENDPOINT,
};
use crate::textfmt::{is_json_safe, json_quoted, json_safe, quote_string};
use base64::Engine;
use vstd::prelude::*;

verus! {

/// Connection configuration for one bitcoind endpoint. Immutable after
/// construction.
pub struct RpcCtx {
    pub version: Option<&'static str>,
    pub wallet: Option<String>,
    pub address: Option<String>,
    pub auth: Option<String>,
}

/// The view of an optional string.
pub open spec fn opt_str_view(s: Option<&str>) -> Option<Seq<char>> {
    match s {
        Some(v) => Some(v@),
        None => None,
    }
}

/// The view of an optional owned string.
pub open spec fn opt_string_view(s: Option<String>) -> Option<Seq<char>> {
    match s {
        Some(v) => Some(v@),
        None => None,
    }
}

impl RpcCtx {
    /// The node address requests go to: the configured one, or the
    /// fallback development node.
    pub open spec fn spec_address(self) -> Seq<char> {
        match self.address {
            Some(a) => a@,
            None => "http://127.0.0.1:18331"@,
        }
    }

    /// The URL requests are posted to: the node address, or its
    /// wallet-scoped route when a wallet is configured.
    pub open spec fn spec_url(self) -> Seq<char> {
        match self.wallet {
            Some(w) => self.spec_address() + "/wallet/"@ + w@,
            None => self.spec_address(),
        }
    }

    pub fn new(
        version: Option<&'static str>,
        wallet: Option<String>,
        address: Option<String>,
        auth: Option<String>,
    ) -> (ctx: Self)
        ensures
            ctx.version == version,
            ctx.wallet == wallet,
            ctx.address == address,
            ctx.auth == auth,
    {
        Self { version, wallet, address, auth }
    }

    pub fn wallet(&self) -> (r: Option<&str>)
        ensures
            opt_str_view(r) == opt_string_view(self.wallet),
    {
        match &self.wallet {
            Some(w) => Some(w.as_str()),
            None => None,
        }
    }

    pub fn address(&self) -> (r: &str)
        ensures
            r@ == self.spec_address(),
    {
        match &self.address {
            Some(a) => a.as_str(),
            None => JSON_RPC_DEFAULT_ADDRESS,
        }
    }

    pub fn auth(&self) -> (r: Option<&str>)
        ensures
            opt_str_view(r) == opt_string_view(self.auth),
    {
        match &self.auth {
            Some(a) => Some(a.as_str()),
            None => None,
        }
    }

    /// A context pointing at the development node, with its wallet and
    /// credentials.
    pub fn for_testing() -> (ctx: Self)
        ensures
            ctx.version matches Some(v) && v@ == "1.0"@,
            ctx.wallet matches Some(w) && w@ == "mywallet"@,
            ctx.address matches Some(a) && a@ == "http://146.190.33.39:18331"@,
            ctx.auth matches Some(a) && a@ == "root:hellohello"@,
    {
        Self {
            version: Some(BITCOIN_JSON_RPC_VERSION),
            wallet: Some(String::from_str("mywallet")),
            address: Some(String::from_str(JSON_RPC_ENDPOINT)),
            auth: Some(String::from_str(JSON_RPC_AUTH)),
        }
    }

    /// Builds the URL this context posts requests to.
    pub fn url(&self) -> (r: String)
        ensures
            r@ == self.spec_url(),
    {
        match &self.wallet {
            Some(w) => {
                let mut u = self.address().to_owned();
                u.append("/wallet/");
                u.append(w.as_str());
                u
            },
            None => self.address().to_owned(),
        }
    }
}

impl Default for RpcCtx {
    /// A context with nothing configured: unauthenticated requests to
    /// the fallback node, with no version tag and the default wallet.
    fn default() -> (ctx: Self)
        ensures
            ctx.version is None,
            ctx.wallet is None,
            ctx.address is None,
            ctx.auth is None,
    {
        RpcCtx { version: None, wallet: None, address: None, auth: None }
    }
}

/// The standard base64 encoding of the bytes of a string; what the
/// encoder returns depends on those characters alone.
pub uninterp spec fn base64_of(s: Seq<char>) -> Seq<char>;

/// Relies on base64's standard (padded) engine to encode the
/// credential bytes.
#[verifier::external_body]
fn base64_encode(s: &str) -> (r: String)
    ensures
        r@ == base64_of(s@),
{
    base64::engine::general_purpose::STANDARD.encode(s)
}

/// The value of the Authorization header for HTTP Basic authentication
/// with the given `user:password` credentials.
pub open spec fn basic_auth_header(auth: Seq<char>) -> Seq<char> {
    "Basic "@ + base64_of(auth)
}

/// Builds the HTTP Basic Authorization header value for the given
/// `user:password` credentials.
pub fn auth_header_value(auth: &str) -> (r: String)
    ensures
        r@ == basic_auth_header(auth@),
{
    let mut out = String::from_str("Basic ");
    let encoded = base64_encode(auth);
    out.append(encoded.as_str());
    out
}

/// The comma-separated splice of pre-serialized JSON parameters.
pub open spec fn params_json(ps: Seq<Seq<char>>) -> Seq<char>
    decreases ps.len(),
{
    if ps.len() == 0 {
        Seq::empty()
    } else if ps.len() == 1 {
        ps[0]
    } else {
        params_json(ps.drop_last()) + ","@ + ps.last()
    }
}

/// The JSON-RPC 1.0 request envelope: optional version tag, constant
/// placeholder id, method name, and the positional parameter list.
pub open spec fn request_body_spec(
    version: Option<Seq<char>>,
    method: Seq<char>,
    params: Seq<Seq<char>>,
) -> Seq<char> {
    "{"@ + (match version {
        Some(v) => "\"jsonrpc\":"@ + json_quoted(v) + ","@,
        None => Seq::<char>::empty(),
    }) + "\"id\":\"whatevs\",\"method\":"@ + json_quoted(method) + ",\"params\":["@ + params_json(
        params,
    ) + "]}"@
}

/// Splices the pre-serialized parameters into a JSON array body,
/// comma-separated.
fn build_params(params: &Vec<String>) -> (r: String)
    ensures
        r@ == params_json(params@.map_values(|p: String| p@)),
{
    let mut out = String::new();
    let mut i: usize = 0;
    while i < params.len()
        invariant
            i <= params@.len(),
            out@ =~= params_json(params@.map_values(|p: String| p@).take(i as int)),
        decreases params@.len() - i,
    {
        if i > 0 {
            out.append(",");
        }
        out.append(params[i].as_str());
        proof {
            let ps = params@.map_values(|p: String| p@);
            assert(ps.take(i + 1 as int).drop_last() =~= ps.take(i as int));
            assert(ps.take(i + 1 as int).last() == ps[i as int]);
            assert(out@ =~= params_json(ps.take(i + 1 as int)));
        }
        i = i + 1;
    }
    proof {
        let ps = params@.map_values(|p: String| p@);
        assert(ps.take(ps.len() as int) =~= ps);
    }
    out
}

/// Builds the JSON-RPC 1.0 request body for one call, or nothing when
/// the version tag or the method name could not stand verbatim inside
/// a JSON string. Parameters are spliced in verbatim: each must be a
/// pre-serialized JSON value, as in the transport contract.
pub fn build_request_body(version: Option<&str>, method: &str, params: &Vec<String>) -> (r: Option<
    String,
>)
    ensures
        r is Some <==> json_safe(method@) && (match opt_str_view(version) {
            Some(v) => json_safe(v),
            None => true,
        }),
        r matches Some(body) ==> body@ == request_body_spec(
            opt_str_view(version),
            method@,
            params@.map_values(|p: String| p@),
        ),
{
    if let Some(v) = version {
        if !is_json_safe(v) {
            return None;
        }
    }
    if !is_json_safe(method) {
        return None;
    }
    let mut out = String::from_str("{");
    if let Some(v) = version {
        out.append("\"jsonrpc\":");
        let q = quote_string(v);
        out.append(q.as_str());
        out.append(",");
    }
    out.append("\"id\":\"whatevs\",\"method\":");
    let qm = quote_string(method);
    out.append(qm.as_str());
    out.append(",\"params\":[");
    let ps = build_params(params);
    out.append(ps.as_str());
    out.append("]}");
    proof {
        assert(out@ =~= request_body_spec(
            opt_str_view(version),
            method@,
            params@.map_values(|p: String| p@),
        ));
    }
    Some(out)
}

} // verus!
