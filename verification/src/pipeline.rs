//! The transaction pipeline: fund, sign and broadcast, each split into
//! a verified request builder and a verified response interpreter
//! around one JSON-RPC exchange.
//!
//! The response side deliberately starts from the raw response body,
//! whatever the HTTP status was: the node may answer 200 with an error
//! envelope, or a 5xx status with a diagnostic body, and the
//! node-reported error detail must survive intact.

use crate::hexcodec::{hex_encode, hex_of};
use crate::rpc::{build_request_body, opt_str_view, opt_string_view, request_body_spec, RpcCtx};
use crate::textfmt::{is_json_safe, json_quoted, json_safe, json_safe_char};
use vstd::prelude::*;

verus! {

#[verifier::external_type_specification]
#[verifier::external_body]
pub struct ExTransaction(bitcoin::Transaction);

/// A failure of one pipeline stage. Transport failures (the HTTP
/// exchange itself) are not here: they arise outside this core and are
/// surfaced separately by the caller that performs the exchange.
#[derive(Debug)]
pub enum TxError {
    /// The node answered with a JSON-RPC error envelope; its detail —
    /// code, message, and the optional raw data payload — is kept
    /// verbatim.
    Rpc { code: i32, message: String, data: Option<String> },
    /// The response body was not a JSON-RPC envelope.
    MalformedResponse,
    /// The envelope carried neither a result nor an error.
    MissingResult,
    /// The result payload did not have the shape the method promises.
    BadResultPayload,
    /// The embedded transaction bytes failed consensus decoding.
    BadTransactionEncoding,
    /// An input string could not stand verbatim inside a JSON string.
    UnsafeParameter,
}

/// A transaction handed to a pipeline stage, in whichever form the
/// caller already has: raw hex, or a structured transaction.
pub enum TransactionOrHex<'a> {
    Hex(String),
    Transaction(&'a bitcoin::Transaction),
}

/// The consensus serialization of a transaction, as lowercase hex: a
/// function of the transaction alone.
pub uninterp spec fn tx_hex_of(tx: bitcoin::Transaction) -> Seq<char>;

/// The byte strings that consensus-decode to a transaction, consuming
/// every byte: a function of the bytes alone.
pub uninterp spec fn tx_decodable(bs: Seq<u8>) -> bool;

/// Relies on bitcoin's consensus encoding: a transaction serializes to
/// the lowercase hex of its consensus byte serialization.
#[verifier::external_body]
fn tx_serialize_hex(tx: &bitcoin::Transaction) -> (r: String)
    ensures
        r@ == tx_hex_of(*tx),
        exists|bs: Seq<u8>| r@ == hex_of(bs),
{
    bitcoin::consensus::encode::serialize_hex(tx)
}

/// Relies on bitcoin's consensus decoding of a transaction from bytes:
/// it succeeds on exactly the byte strings the codec accepts whole.
#[verifier::external_body]
fn tx_deserialize(bytes: &[u8]) -> (r: Option<bitcoin::Transaction>)
    ensures
        r is Some <==> tx_decodable(bytes@),
{
    bitcoin::consensus::encode::deserialize(bytes).ok()
}

impl<'a> TransactionOrHex<'a> {
    /// The hex form of the transaction: the string itself, or the
    /// consensus serialization of the structured form.
    pub fn to_hex(&self) -> (r: String)
        ensures
            self matches TransactionOrHex::Hex(h) ==> r@ == h@,
            self matches TransactionOrHex::Transaction(t) ==> r@ == tx_hex_of(**t),
            self matches TransactionOrHex::Transaction(_) ==> exists|bs: Seq<u8>| r@ == hex_of(
                bs,
            ),
    {
        match self {
            TransactionOrHex::Hex(h) => h.clone(),
            TransactionOrHex::Transaction(tx) => tx_serialize_hex(tx),
        }
    }
}

/// What a response body parses to as a JSON-RPC envelope: nothing when
/// it is not one; otherwise the raw result payload, if any, and the
/// error detail (code, message, and the optional raw data payload), if
/// any. A function of the body text alone.
pub uninterp spec fn envelope_of(body: Seq<char>) -> Option<
    (Option<Seq<char>>, Option<(int, Seq<char>, Option<Seq<char>>)>),
>;

/// A parsed JSON-RPC response envelope.
enum Envelope {
    Invalid,
    Parsed { result: Option<String>, error: Option<RpcErrorDetail> },
}

/// Error detail reported by the node inside a JSON-RPC error envelope.
#[derive(Debug)]
pub struct RpcErrorDetail {
    pub code: i32,
    pub message: String,
    pub data: Option<String>,
}

/// Relies on serde's parse of a JSON-RPC response envelope (the
/// `Response` type of bitcoincore_rpc's jsonrpc): the raw result
/// payload and the error detail, moved over field by field.
#[verifier::external_body]
fn parse_envelope(body: &str) -> (r: Envelope)
    ensures
        ({
            let e = envelope_of(body@);
            match r {
                Envelope::Invalid => e is None,
                Envelope::Parsed { result, error } => {
                    &&& e matches Some(p)
                    &&& opt_string_view(result) == p.0
                    &&& match (error, p.1) {
                        (Some(d), Some(q)) => d.code as int == q.0 && d.message@ == q.1
                            && opt_string_view(d.data) == q.2,
                        (None, None) => true,
                        _ => false,
                    }
                },
            }
        }),
{
    match serde_json::from_str::<bitcoincore_rpc::jsonrpc::Response>(body) {
        Err(_) => Envelope::Invalid,
        Ok(resp) => Envelope::Parsed {
            result: match resp.result { Some(rv) => Some(rv.get().to_owned()), None => None },
            error: match resp.error {
                Some(e) => Some(RpcErrorDetail {
                    code: e.code,
                    message: e.message,
                    data: match e.data { Some(d) => Some(d.get().to_owned()), None => None },
                }),
                None => None,
            },
        },
    }
}

/// What interpreting an envelope must yield, given what the body
/// parses to: the raw result payload, or the error with the node's
/// detail kept verbatim.
pub open spec fn interpretation_of(body: Seq<char>, r: Result<String, TxError>) -> bool {
    match envelope_of(body) {
        None => r matches Err(TxError::MalformedResponse),
        Some(p) => match p.1 {
            Some(e) => r matches Err(TxError::Rpc { code, message, data }) && code as int == e.0
                && message@ == e.1 && opt_string_view(data) == e.2,
            None => match p.0 {
                Some(res) => r matches Ok(s) && s@ == res,
                None => r matches Err(TxError::MissingResult),
            },
        },
    }
}

/// Interprets a raw response body as a JSON-RPC envelope: the error
/// detail wins if present, else the raw result payload is handed out.
/// The HTTP status plays no part: a diagnostic body under a failure
/// status is interpreted all the same.
pub fn interpret_envelope(body: &str) -> (r: Result<String, TxError>)
    ensures
        interpretation_of(body@, r),
{
    match parse_envelope(body) {
        Envelope::Invalid => Err(TxError::MalformedResponse),
        Envelope::Parsed { result, error } => match error {
            Some(d) => Err(TxError::Rpc { code: d.code, message: d.message, data: d.data }),
            None => match result {
                Some(s) => Ok(s),
                None => Err(TxError::MissingResult),
            },
        },
    }
}

/// Every hex encoding may stand verbatim inside a JSON string.
pub proof fn lemma_hex_json_safe(bs: Seq<u8>)
    ensures
        json_safe(hex_of(bs)),
{
    assert forall|i: int| 0 <= i < hex_of(bs).len() implies json_safe_char(hex_of(bs)[i]) by {
        assert(hex_of(bs)[i] == if i % 2 == 0 {
            crate::hexcodec::hex_digit(bs[i / 2] / 16)
        } else {
            crate::hexcodec::hex_digit(bs[i / 2] % 16)
        });
    }
}

/// Whether an optional version tag may stand inside the envelope.
pub open spec fn opt_json_safe(v: Option<Seq<char>>) -> bool {
    match v {
        Some(s) => json_safe(s),
        None => true,
    }
}

/// The contract of a stage's request builder: on a hex input the exact
/// envelope with that hex as the one (quoted) parameter; on a
/// structured input the same with the consensus hex of the
/// transaction; an error exactly when some part could not stand inside
/// a JSON string.
pub open spec fn request_outcome(
    version: Option<Seq<char>>,
    method: Seq<char>,
    tx: TransactionOrHex<'_>,
    r: Result<String, TxError>,
) -> bool {
    match tx {
        TransactionOrHex::Hex(h) => {
            &&& (r is Ok <==> json_safe(h@) && json_safe(method) && opt_json_safe(version))
            &&& (r matches Ok(b) ==> b@ == request_body_spec(
                version,
                method,
                seq![json_quoted(h@)],
            ))
            &&& (r is Err ==> r matches Err(TxError::UnsafeParameter))
        },
        TransactionOrHex::Transaction(t) => {
            &&& (r is Ok <==> json_safe(method) && opt_json_safe(version))
            &&& (r matches Ok(b) ==> b@ == request_body_spec(
                version,
                method,
                seq![json_quoted(tx_hex_of(*t))],
            ))
            &&& (r is Err ==> r matches Err(TxError::UnsafeParameter))
        },
    }
}

/// Builds the request body for one stage: the method with the
/// transaction hex as its single, quoted parameter.
fn tx_request_body(ctx: &RpcCtx, method: &str, tx: &TransactionOrHex<'_>) -> (r: Result<
    String,
    TxError,
>)
    ensures
        request_outcome(opt_str_view(ctx.version), method@, *tx, r),
{
    let hex = tx.to_hex();
    if !is_json_safe(hex.as_str()) {
        proof {
            if tx matches TransactionOrHex::Transaction(_) {
                let bs = choose|bs: Seq<u8>| hex@ == hex_of(bs);
                lemma_hex_json_safe(bs);
            }
        }
        return Err(TxError::UnsafeParameter);
    }
    let mut params: Vec<String> = Vec::new();
    params.push(crate::textfmt::quote_string(hex.as_str()));
    match build_request_body(ctx.version, method, &params) {
        Some(body) => {
            proof {
                assert(params@.map_values(|p: String| p@) =~= seq![json_quoted(hex@)]);
            }
            Ok(body)
        },
        None => Err(TxError::UnsafeParameter),
    }
}

/// Builds the `fundrawtransaction` request body for this transaction.
pub fn fund_request(ctx: &RpcCtx, tx: &TransactionOrHex<'_>) -> (r: Result<String, TxError>)
    ensures
        request_outcome(opt_str_view(ctx.version), "fundrawtransaction"@, *tx, r),
{
    tx_request_body(ctx, "fundrawtransaction", tx)
}

/// Builds the `signrawtransactionwithwallet` request body for this
/// transaction.
pub fn sign_request(ctx: &RpcCtx, tx: &TransactionOrHex<'_>) -> (r: Result<String, TxError>)
    ensures
        request_outcome(opt_str_view(ctx.version), "signrawtransactionwithwallet"@, *tx, r),
{
    tx_request_body(ctx, "signrawtransactionwithwallet", tx)
}

/// Builds the `sendrawtransaction` request body for this transaction.
pub fn send_request(ctx: &RpcCtx, tx: &TransactionOrHex<'_>) -> (r: Result<String, TxError>)
    ensures
        request_outcome(opt_str_view(ctx.version), "sendrawtransaction"@, *tx, r),
{
    tx_request_body(ctx, "sendrawtransaction", tx)
}

/// Equal requests for equal inputs: handing a stage a structured
/// transaction and handing it that transaction's consensus hex
/// produce the same request body, and whenever the hex form is
/// accepted the structured form is too.
pub proof fn lemma_request_forms_agree(
    version: Option<Seq<char>>,
    method: Seq<char>,
    t: &bitcoin::Transaction,
    h: String,
    r1: Result<String, TxError>,
    r2: Result<String, TxError>,
)
    requires
        h@ == tx_hex_of(*t),
        request_outcome(version, method, TransactionOrHex::Transaction(t), r1),
        request_outcome(version, method, TransactionOrHex::Hex(h), r2),
    ensures
        r1 is Ok && r2 is Ok ==> r1->Ok_0@ == r2->Ok_0@,
        r2 is Ok ==> r1 is Ok,
{
    assert(seq![json_quoted(tx_hex_of(*t))] =~= seq![json_quoted(h@)]);
}

/// What the `fundrawtransaction` result payload parses to: the
/// consensus bytes of the funded transaction, when the payload has the
/// method's shape. A function of the payload text alone.
pub uninterp spec fn fund_result_hex(s: Seq<char>) -> Option<Seq<u8>>;

/// Relies on serde's parse of bitcoind's `fundrawtransaction` result
/// (bitcoincore_rpc's type): the `hex` field, decoded to bytes.
#[verifier::external_body]
fn parse_fund_result(s: &str) -> (r: Option<Vec<u8>>)
    ensures
        match r {
            Some(v) => fund_result_hex(s@) matches Some(b) && v@ == b,
            None => fund_result_hex(s@) is None,
        },
{
    match serde_json::from_str::<bitcoincore_rpc::json::FundRawTransactionResult>(s) {
        Ok(p) => Some(p.hex),
        Err(_) => None,
    }
}

/// What the `signrawtransactionwithwallet` result payload parses to:
/// the consensus bytes of the signed transaction, when the payload has
/// the method's shape. A function of the payload text alone.
pub uninterp spec fn sign_result_hex(s: Seq<char>) -> Option<Seq<u8>>;

/// Relies on serde's parse of bitcoind's `signrawtransactionwithwallet`
/// result (bitcoincore_rpc's type): the `hex` field, decoded to bytes.
#[verifier::external_body]
fn parse_sign_result(s: &str) -> (r: Option<Vec<u8>>)
    ensures
        match r {
            Some(v) => sign_result_hex(s@) matches Some(b) && v@ == b,
            None => sign_result_hex(s@) is None,
        },
{
    match serde_json::from_str::<bitcoincore_rpc::json::SignRawTransactionResult>(s) {
        Ok(p) => Some(p.hex),
        Err(_) => None,
    }
}

/// What a result payload parses to as one JSON string value. A
/// function of the payload text alone.
pub uninterp spec fn json_string_of(s: Seq<char>) -> Option<Seq<char>>;

/// Relies on serde's parse of a single JSON string value.
#[verifier::external_body]
fn parse_json_string(s: &str) -> (r: Option<String>)
    ensures
        match r {
            Some(v) => json_string_of(s@) matches Some(t) && v@ == t,
            None => json_string_of(s@) is None,
        },
{
    serde_json::from_str::<String>(s).ok()
}

/// The contract of the fund and sign response interpreters: envelope
/// errors surface with their detail; a well-shaped result yields
/// exactly the hex of the returned consensus bytes.
pub open spec fn tx_response_outcome(
    body: Seq<char>,
    payload_hex: spec_fn(Seq<char>) -> Option<Seq<u8>>,
    r: Result<(String, bitcoin::Transaction), TxError>,
) -> bool {
    match envelope_of(body) {
        None => r matches Err(TxError::MalformedResponse),
        Some(p) => match p.1 {
            Some(e) => r matches Err(TxError::Rpc { code, message, data }) && code as int == e.0
                && message@ == e.1 && opt_string_view(data) == e.2,
            None => match p.0 {
                None => r matches Err(TxError::MissingResult),
                Some(res) => match payload_hex(res) {
                    None => r matches Err(TxError::BadResultPayload),
                    Some(bytes) => if tx_decodable(bytes) {
                        r matches Ok(t) && t.0@ == hex_of(bytes)
                    } else {
                        r matches Err(TxError::BadTransactionEncoding)
                    },
                },
            },
        },
    }
}

/// Interprets a `fundrawtransaction` response body: the funded
/// transaction's hex and its decoded form, or the error with the
/// node's detail.
pub fn parse_fund_response(body: &str) -> (r: Result<(String, bitcoin::Transaction), TxError>)
    ensures
        tx_response_outcome(body@, |s: Seq<char>| fund_result_hex(s), r),
{
    let res = match interpret_envelope(body) {
        Ok(s) => s,
        Err(e) => {
            return Err(e);
        },
    };
    let bytes = match parse_fund_result(res.as_str()) {
        Some(b) => b,
        None => {
            return Err(TxError::BadResultPayload);
        },
    };
    let tx = match tx_deserialize(bytes.as_slice()) {
        Some(t) => t,
        None => {
            return Err(TxError::BadTransactionEncoding);
        },
    };
    Ok((hex_encode(bytes.as_slice()), tx))
}

/// Interprets a `signrawtransactionwithwallet` response body: the
/// signed transaction's hex and its decoded form, or the error with
/// the node's detail.
pub fn parse_sign_response(body: &str) -> (r: Result<(String, bitcoin::Transaction), TxError>)
    ensures
        tx_response_outcome(body@, |s: Seq<char>| sign_result_hex(s), r),
{
    let res = match interpret_envelope(body) {
        Ok(s) => s,
        Err(e) => {
            return Err(e);
        },
    };
    let bytes = match parse_sign_result(res.as_str()) {
        Some(b) => b,
        None => {
            return Err(TxError::BadResultPayload);
        },
    };
    let tx = match tx_deserialize(bytes.as_slice()) {
        Some(t) => t,
        None => {
            return Err(TxError::BadTransactionEncoding);
        },
    };
    Ok((hex_encode(bytes.as_slice()), tx))
}

/// A character of a hex digit, either case.
pub open spec fn hex_char(c: char) -> bool {
    (48 <= c as u32 && c as u32 <= 57) || (97 <= c as u32 && c as u32 <= 102) || (65 <= c as u32
        && c as u32 <= 70)
}

/// A well-formed transaction id: exactly 64 hex characters.
pub open spec fn txid_wf(s: Seq<char>) -> bool {
    s.len() == 64 && forall|i: int| 0 <= i < s.len() ==> hex_char(s[i])
}

/// Checks that a string is a well-formed transaction id.
pub fn is_txid(s: &str) -> (r: bool)
    ensures
        r == txid_wf(s@),
{
    let len = s.unicode_len();
    if len != 64 {
        return false;
    }
    let mut i: usize = 0;
    while i < len
        invariant
            i <= len,
            len == s@.len(),
            s@.len() == 64,
            forall|k: int| 0 <= k < i ==> hex_char(s@[k]),
        decreases len - i,
    {
        let c = s.get_char(i);
        let n = c as u32;
        if !((48 <= n && n <= 57) || (97 <= n && n <= 102) || (65 <= n && n <= 70)) {
            return false;
        }
        i = i + 1;
    }
    true
}

/// The contract of the broadcast response interpreter: envelope errors
/// surface with their detail; a well-formed result yields the
/// node-reported transaction id unchanged.
pub open spec fn send_response_outcome(body: Seq<char>, r: Result<String, TxError>) -> bool {
    match envelope_of(body) {
        None => r matches Err(TxError::MalformedResponse),
        Some(p) => match p.1 {
            Some(e) => r matches Err(TxError::Rpc { code, message, data }) && code as int == e.0
                && message@ == e.1 && opt_string_view(data) == e.2,
            None => match p.0 {
                None => r matches Err(TxError::MissingResult),
                Some(res) => match json_string_of(res) {
                    None => r matches Err(TxError::BadResultPayload),
                    Some(t) => if txid_wf(t) {
                        r matches Ok(id) && id@ == t
                    } else {
                        r matches Err(TxError::BadResultPayload)
                    },
                },
            },
        },
    }
}

/// Interprets a `sendrawtransaction` response body: the broadcast
/// transaction id exactly as the node reported it, or the error with
/// the node's detail.
pub fn parse_send_response(body: &str) -> (r: Result<String, TxError>)
    ensures
        send_response_outcome(body@, r),
{
    let res = match interpret_envelope(body) {
        Ok(s) => s,
        Err(e) => {
            return Err(e);
        },
    };
    let txid = match parse_json_string(res.as_str()) {
        Some(t) => t,
        None => {
            return Err(TxError::BadResultPayload);
        },
    };
    if !is_txid(txid.as_str()) {
        return Err(TxError::BadResultPayload);
    }
    Ok(txid)
}

} // verus!
