//! The JSON-RPC wire: building request bodies and judging response
//! bodies. The shell posts the bytes and hands the answer back; what the
//! engine asked and how an answer is read are decided here.

use vstd::prelude::*;

use crate::hash::{hex_of_bytes, H256};
use crate::quantity::{
    hex_quantity, hex_seq_value, parse_bare_hash_text, parse_hash_text, parse_hex_quantity,
    spec_bare_hash_bytes, spec_hash_bytes, spec_is_bare_hash_text, spec_is_hash_text,
    spec_is_quantity, spec_quantity, QuantityError,
};

verus! {

/// A chain node endpoint. Requests carry no state beyond the URL; the
/// value is freely copied around the engine's loops.
pub struct RpcClient {
    pub url: String,
}

impl RpcClient {
    pub fn new(url: String) -> (r: RpcClient)
        ensures
            r.url == url,
    {
        RpcClient { url }
    }
}

/// How a response failed to deliver a result.
#[derive(Clone, Copy, PartialEq, Eq, Structural, Debug)]
pub enum RpcError {
    /// The response carries no `result` member: the asked-for datum is
    /// not available yet. Pollers treat this as "try again", not as a
    /// failure.
    EmptyResponse,
    /// The body is no JSON document, or the result has the wrong shape.
    Transport,
}

/// The JSON-RPC 2.0 request body: the fixed envelope around a method
/// name and a rendered parameter list.
pub open spec fn spec_request(method: Seq<char>, params: Seq<char>) -> Seq<char> {
    "{\"jsonrpc\":\"2.0\",\"method\":\""@ + method + "\",\"params\":["@ + params + "],\"id\":1}"@
}

/// Builds the request body for one call.
pub fn request_body(method: &str, params: &str) -> (r: String)
    ensures
        r@ == spec_request(method@, params@),
{
    let mut s = String::from_str("{\"jsonrpc\":\"2.0\",\"method\":\"");
    s.append(method);
    s.append("\",\"params\":[");
    s.append(params);
    s.append("],\"id\":1}");
    s
}

impl RpcClient {
    /// The request asking for the node's current block number.
    pub fn get_block_number_request(&self) -> (r: String)
        ensures
            r@ == spec_request("eth_blockNumber"@, ""@),
    {
        request_body("eth_blockNumber", "")
    }

    /// The request asking for the current gas price.
    pub fn get_gas_price_request(&self) -> (r: String)
        ensures
            r@ == spec_request("eth_gasPrice"@, ""@),
    {
        request_body("eth_gasPrice", "")
    }

    /// The request asking for an account's pending balance. `account` is
    /// the `0x`-prefixed address.
    pub fn get_balance_request(&self, account: &str) -> (r: String)
        ensures
            r@ == spec_request("eth_getBalance"@, "\""@ + account@ + "\",\"pending\""@),
    {
        let mut params = String::from_str("\"");
        params.append(account);
        params.append("\",\"pending\"");
        request_body("eth_getBalance", params.as_str())
    }

    /// The request asking for an account's transaction count at the
    /// latest block: the nonce of the next outbound transaction.
    pub fn get_transaction_count_request(&self, account: &str) -> (r: String)
        ensures
            r@ == spec_request("eth_getTransactionCount"@, "\""@ + account@ + "\",\"latest\""@),
    {
        let mut params = String::from_str("\"");
        params.append(account);
        params.append("\",\"latest\"");
        request_body("eth_getTransactionCount", params.as_str())
    }

    /// The request asking for one block with full transaction bodies.
    pub fn get_block_by_number_request(&self, block_number: u64) -> (r: String)
        ensures
            r@ == spec_request(
                "eth_getBlockByNumber"@,
                "\""@ + spec_quantity(block_number as nat) + "\",true"@,
            ),
    {
        let mut params = String::from_str("\"");
        let q = hex_quantity(block_number as u128);
        params.append(q.as_str());
        params.append("\",true");
        request_body("eth_getBlockByNumber", params.as_str())
    }

    /// The request broadcasting a signed transaction, handed over as its
    /// RLP bytes.
    pub fn send_raw_transaction_request(&self, signed_rlp: &[u8]) -> (r: String)
        ensures
            r@ == spec_request(
                "eth_sendRawTransaction"@,
                "\"0x"@ + hex_of_bytes(signed_rlp@) + "\""@,
            ),
    {
        let mut params = String::from_str("\"0x");
        crate::hash::append_hex_of_bytes(&mut params, signed_rlp);
        params.append("\"");
        request_body("eth_sendRawTransaction", params.as_str())
    }
}

impl RpcClient {
    /// The request asking for the Bitcoin node's chain height.
    pub fn get_block_count_request(&self) -> (r: String)
        ensures
            r@ == spec_request("getblockcount"@, ""@),
    {
        request_body("getblockcount", "")
    }

    /// The request asking for the hash of the block at one height.
    pub fn get_block_hash_request(&self, height: u64) -> (r: String)
        ensures
            r@ == spec_request("getblockhash"@, crate::quantity::spec_dec_digits(height as nat)),
    {
        let params = crate::quantity::dec_string(height);
        request_body("getblockhash", params.as_str())
    }

    /// The request asking for one block by its hash, which the Bitcoin
    /// wire renders as bare hex.
    pub fn get_block_request(&self, hash: &H256) -> (r: String)
        ensures
            r@ == spec_request("getblock"@, "\""@ + hex_of_bytes(hash@) + "\""@),
    {
        let mut params = String::from_str("\"");
        crate::hash::append_hex_of_bytes(&mut params, hash.bytes.as_slice());
        params.append("\"");
        request_body("getblock", params.as_str())
    }

    /// The request asking for one decoded transaction by its txid.
    pub fn get_raw_transaction_request(&self, txid: &H256) -> (r: String)
        ensures
            r@ == spec_request("getrawtransaction"@, "\""@ + hex_of_bytes(txid@) + "\",true"@),
    {
        let mut params = String::from_str("\"");
        crate::hash::append_hex_of_bytes(&mut params, txid.bytes.as_slice());
        params.append("\",true");
        request_body("getrawtransaction", params.as_str())
    }

    /// The request asking for the txids currently in the mempool.
    pub fn get_raw_mempool_request(&self) -> (r: String)
        ensures
            r@ == spec_request("getrawmempool"@, ""@),
    {
        request_body("getrawmempool", "")
    }

    /// The request broadcasting a signed Bitcoin transaction, bare hex.
    pub fn send_raw_bitcoin_transaction_request(&self, signed: &[u8]) -> (r: String)
        ensures
            r@ == spec_request("sendrawtransaction"@, "\""@ + hex_of_bytes(signed@) + "\""@),
    {
        let mut params = String::from_str("\"");
        crate::hash::append_hex_of_bytes(&mut params, signed);
        params.append("\"");
        request_body("sendrawtransaction", params.as_str())
    }
}

/// The `result` member of a response body, reduced to plain values:
/// the body was no JSON, the member is absent, it is a string, it is an
/// unsigned integer, it is an array whose elements are all strings, or
/// it is something else.
#[derive(PartialEq, Eq, Debug)]
pub enum ResultField {
    NoBody,
    Missing,
    Text(String),
    Uint(u64),
    Texts(Vec<String>),
    Other,
}

/// What a response body reduces to: serde_json's parse of the bytes is
/// deterministic, so the result field is a function of the bytes alone,
/// and every decoder's contract speaks of this name.
pub uninterp spec fn result_field_of(body: Seq<u8>) -> ResultField;

/// Reads a response body down to its `result` member. Relies on
/// serde_json's `from_slice`, `Value::get` and `Number::as_u64`, and on
/// the `Value` variants: a string result is handed out as its text, an
/// unsigned number as its value, an all-string array as its texts;
/// anything else reduces to `Other`. Everything past this point is
/// judged by verified code on the returned plain values.
#[verifier::external_body]
pub fn extract_result(body: &[u8]) -> (r: ResultField)
    ensures
        r == result_field_of(body@),
{
    let v: serde_json::Value = match serde_json::from_slice(body) {
        Ok(v) => v,
        Err(_) => return ResultField::NoBody,
    };
    match v.get("result") {
        None => ResultField::Missing,
        Some(serde_json::Value::String(s)) => ResultField::Text(s.clone()),
        Some(serde_json::Value::Number(n)) => n.as_u64().map_or(ResultField::Other, ResultField::Uint),
        Some(serde_json::Value::Array(a)) => a.iter().map(|e| e.as_str().map(str::to_owned))
            .collect::<Option<Vec<String>>>().map_or(ResultField::Other, ResultField::Texts),
        Some(_) => ResultField::Other,
    }
}

/// How a quantity-valued result is judged: an absent result is
/// `EmptyResponse`; a string result must be a hex quantity in range; any
/// other shape is a transport-level fault.
pub open spec fn spec_quantity_result(f: ResultField) -> Result<u128, RpcError> {
    match f {
        ResultField::Missing => Err(RpcError::EmptyResponse),
        ResultField::Text(t) => if spec_is_quantity(t@) && hex_seq_value(t@.skip(2)) <= u128::MAX {
            Ok(hex_seq_value(t@.skip(2)) as u128)
        } else {
            Err(RpcError::Transport)
        },
        _ => Err(RpcError::Transport),
    }
}

/// Judges a result field expected to carry a hex quantity, as
/// `eth_blockNumber`, `eth_gasPrice`, `eth_getBalance` and
/// `eth_getTransactionCount` answer.
pub fn quantity_from_result(f: &ResultField) -> (r: Result<u128, RpcError>)
    ensures
        r == spec_quantity_result(*f),
{
    match f {
        ResultField::Missing => Err(RpcError::EmptyResponse),
        ResultField::Text(t) => match parse_hex_quantity(t.as_str()) {
            Ok(v) => Ok(v),
            Err(QuantityError::Malformed) => Err(RpcError::Transport),
            Err(QuantityError::Overflow) => Err(RpcError::Transport),
        },
        ResultField::NoBody => Err(RpcError::Transport),
        ResultField::Uint(_) => Err(RpcError::Transport),
        ResultField::Texts(_) => Err(RpcError::Transport),
        ResultField::Other => Err(RpcError::Transport),
    }
}

/// How a count-valued result is judged: an absent result is
/// `EmptyResponse`; the result must be an unsigned JSON number.
pub open spec fn spec_count_result(f: ResultField) -> Result<u64, RpcError> {
    match f {
        ResultField::Missing => Err(RpcError::EmptyResponse),
        ResultField::Uint(n) => Ok(n),
        _ => Err(RpcError::Transport),
    }
}

/// Judges a result field expected to carry a plain number, as Bitcoin's
/// `getblockcount` answers.
pub fn count_from_result(f: &ResultField) -> (r: Result<u64, RpcError>)
    ensures
        r == spec_count_result(*f),
{
    match f {
        ResultField::Missing => Err(RpcError::EmptyResponse),
        ResultField::Uint(n) => Ok(*n),
        ResultField::NoBody => Err(RpcError::Transport),
        ResultField::Text(_) => Err(RpcError::Transport),
        ResultField::Texts(_) => Err(RpcError::Transport),
        ResultField::Other => Err(RpcError::Transport),
    }
}

/// Judges a result field expected to carry a `0x`-prefixed transaction
/// or block hash, as `eth_sendRawTransaction` answers.
pub fn hash_from_result(f: &ResultField) -> (r: Result<H256, RpcError>)
    ensures
        r is Ok <==> (f matches ResultField::Text(t) && spec_is_hash_text(t@)),
        r matches Ok(h) ==> f matches ResultField::Text(t) && h@ == spec_hash_bytes(t@),
        r == Err::<H256, _>(RpcError::EmptyResponse) <==> f is Missing,
{
    match f {
        ResultField::Missing => Err(RpcError::EmptyResponse),
        ResultField::Text(t) => match parse_hash_text(t.as_str()) {
            Some(h) => Ok(h),
            None => Err(RpcError::Transport),
        },
        ResultField::NoBody => Err(RpcError::Transport),
        ResultField::Uint(_) => Err(RpcError::Transport),
        ResultField::Texts(_) => Err(RpcError::Transport),
        ResultField::Other => Err(RpcError::Transport),
    }
}

/// Judges a result field expected to carry one bare 64-digit hash, as
/// Bitcoin's `getblockhash` answers.
pub fn bare_hash_from_result(f: &ResultField) -> (r: Result<H256, RpcError>)
    ensures
        r is Ok <==> (f matches ResultField::Text(t) && spec_is_bare_hash_text(t@)),
        r matches Ok(h) ==> f matches ResultField::Text(t) && h@ == spec_bare_hash_bytes(t@),
        r == Err::<H256, _>(RpcError::EmptyResponse) <==> f is Missing,
{
    match f {
        ResultField::Missing => Err(RpcError::EmptyResponse),
        ResultField::Text(t) => match parse_bare_hash_text(t.as_str()) {
            Some(h) => Ok(h),
            None => Err(RpcError::Transport),
        },
        ResultField::NoBody => Err(RpcError::Transport),
        ResultField::Uint(_) => Err(RpcError::Transport),
        ResultField::Texts(_) => Err(RpcError::Transport),
        ResultField::Other => Err(RpcError::Transport),
    }
}

/// Whether every text in a list is a bare 64-digit hash.
pub open spec fn spec_all_bare_hashes(ts: Seq<String>) -> bool {
    forall|i: int| 0 <= i < ts.len() ==> spec_is_bare_hash_text((#[trigger] ts[i])@)
}

/// Judges a result field expected to carry the mempool's txids, as
/// Bitcoin's `getrawmempool` answers: an array of bare 64-digit hashes,
/// parsed in order.
pub fn mempool_from_result(f: &ResultField) -> (r: Result<Vec<H256>, RpcError>)
    ensures
        r is Ok <==> (f matches ResultField::Texts(ts) && spec_all_bare_hashes(ts@)),
        r matches Ok(v) ==> f matches ResultField::Texts(ts) && v@.len() == ts@.len() && (forall|
            i: int,
        |
            0 <= i < v@.len() ==> (#[trigger] v@[i])@ == spec_bare_hash_bytes(ts@[i]@)),
        r == Err::<Vec<H256>, _>(RpcError::EmptyResponse) <==> f is Missing,
{
    match f {
        ResultField::Missing => Err(RpcError::EmptyResponse),
        ResultField::Texts(ts) => {
            let mut txids: Vec<H256> = Vec::new();
            let n = ts.len();
            for i in 0..n
                invariant
                    *f == ResultField::Texts(*ts),
                    n == ts@.len(),
                    txids@.len() == i,
                    forall|k: int| 0 <= k < i ==> spec_is_bare_hash_text((#[trigger] ts@[k])@),
                    forall|k: int|
                        0 <= k < i ==> (#[trigger] txids@[k])@ == spec_bare_hash_bytes(ts@[k]@),
            {
                match parse_bare_hash_text(ts[i].as_str()) {
                    Some(h) => txids.push(h),
                    None => {
                        proof {
                            assert(!spec_is_bare_hash_text(ts@[i as int]@));
                            assert(!spec_all_bare_hashes(ts@));
                        }
                        return Err(RpcError::Transport);
                    },
                }
            }
            Ok(txids)
        },
        ResultField::NoBody => Err(RpcError::Transport),
        ResultField::Text(_) => Err(RpcError::Transport),
        ResultField::Uint(_) => Err(RpcError::Transport),
        ResultField::Other => Err(RpcError::Transport),
    }
}

/// Reads a whole quantity response: the typed value the body's result
/// denotes, `EmptyResponse` exactly when the body carries no `result`
/// member, a transport fault for every other shape.
pub fn decode_quantity_response(body: &[u8]) -> (r: Result<u128, RpcError>)
    ensures
        r == spec_quantity_result(result_field_of(body@)),
{
    let f = extract_result(body);
    quantity_from_result(&f)
}

/// Reads a whole count response: the number the body's result carries,
/// `EmptyResponse` exactly when the `result` member is absent.
pub fn decode_count_response(body: &[u8]) -> (r: Result<u64, RpcError>)
    ensures
        r == spec_count_result(result_field_of(body@)),
{
    let f = extract_result(body);
    count_from_result(&f)
}

/// Reads a whole hash response: the hash the body's `0x`-prefixed
/// result denotes, `EmptyResponse` exactly when the `result` member is
/// absent.
pub fn decode_hash_response(body: &[u8]) -> (r: Result<H256, RpcError>)
    ensures
        r is Ok <==> (result_field_of(body@) matches ResultField::Text(t) && spec_is_hash_text(
            t@,
        )),
        r matches Ok(h) ==> result_field_of(body@) matches ResultField::Text(t) && h@
            == spec_hash_bytes(t@),
        r == Err::<H256, _>(RpcError::EmptyResponse) <==> result_field_of(body@) is Missing,
{
    let f = extract_result(body);
    hash_from_result(&f)
}

/// Reads a whole `getblockhash` response: the hash the body's bare
/// 64-digit result denotes, `EmptyResponse` exactly when the `result`
/// member is absent.
pub fn decode_bare_hash_response(body: &[u8]) -> (r: Result<H256, RpcError>)
    ensures
        r is Ok <==> (result_field_of(body@) matches ResultField::Text(t)
            && spec_is_bare_hash_text(t@)),
        r matches Ok(h) ==> result_field_of(body@) matches ResultField::Text(t) && h@
            == spec_bare_hash_bytes(t@),
        r == Err::<H256, _>(RpcError::EmptyResponse) <==> result_field_of(body@) is Missing,
{
    let f = extract_result(body);
    bare_hash_from_result(&f)
}

/// Reads a whole `getrawmempool` response: the txids the body's string
/// array denotes, in order; `EmptyResponse` exactly when the `result`
/// member is absent; a transport fault for every other shape or for any
/// element that is no bare 64-digit hash.
pub fn decode_mempool_response(body: &[u8]) -> (r: Result<Vec<H256>, RpcError>)
    ensures
        r is Ok <==> (result_field_of(body@) matches ResultField::Texts(ts)
            && spec_all_bare_hashes(ts@)),
        r matches Ok(v) ==> result_field_of(body@) matches ResultField::Texts(ts) && v@.len()
            == ts@.len() && (forall|i: int|
            0 <= i < v@.len() ==> (#[trigger] v@[i])@ == spec_bare_hash_bytes(ts@[i]@)),
        r == Err::<Vec<H256>, _>(RpcError::EmptyResponse) <==> result_field_of(body@) is Missing,
{
    let f = extract_result(body);
    mempool_from_result(&f)
}

} // verus!
