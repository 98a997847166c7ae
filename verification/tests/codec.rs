//! The wire codecs: hex quantities, hash texts, hashes, JSON-RPC
//! request bodies and response decoding against literal bytes.

use finch::hash::H256;
use finch::quantity::{hex_quantity, parse_hash_text, parse_hex_quantity, QuantityError};
use finch::rpc::{
    bare_hash_from_result, count_from_result, decode_bare_hash_response, decode_count_response,
    decode_hash_response, decode_mempool_response, decode_quantity_response, extract_result,
    hash_from_result, mempool_from_result, quantity_from_result, request_body, ResultField,
    RpcClient, RpcError,
};

#[test]
fn quantity_parses_exactly() {
    assert_eq!(parse_hex_quantity("0x64"), Ok(100));
    assert_eq!(parse_hex_quantity("0x0"), Ok(0));
    assert_eq!(parse_hex_quantity("0x499602d2"), Ok(1_234_567_890));
    assert_eq!(parse_hex_quantity("0xDeadBeef"), Ok(0xdead_beef));
    // Thirty-two digits: the largest representable value.
    assert_eq!(parse_hex_quantity("0xffffffffffffffffffffffffffffffff"), Ok(u128::MAX));
}

#[test]
fn quantity_rejects_malformed_text() {
    assert_eq!(parse_hex_quantity(""), Err(QuantityError::Malformed));
    assert_eq!(parse_hex_quantity("0x"), Err(QuantityError::Malformed));
    assert_eq!(parse_hex_quantity("64"), Err(QuantityError::Malformed));
    assert_eq!(parse_hex_quantity("1x64"), Err(QuantityError::Malformed));
    assert_eq!(parse_hex_quantity("0xg4"), Err(QuantityError::Malformed));
}

#[test]
fn quantity_rejects_overflow() {
    // Thirty-three digits overflow the engine's range.
    assert_eq!(
        parse_hex_quantity("0x1ffffffffffffffffffffffffffffffff"),
        Err(QuantityError::Overflow)
    );
}

#[test]
fn quantity_round_trips() {
    assert_eq!(hex_quantity(0), "0x0");
    assert_eq!(hex_quantity(100), "0x64");
    assert_eq!(hex_quantity(1_234_567_890), "0x499602d2");
    for n in [0u128, 1, 15, 16, 255, 4096, u128::MAX] {
        assert_eq!(parse_hex_quantity(&hex_quantity(n)), Ok(n));
    }
}

#[test]
fn hash_text_parses_to_bytes() {
    let text = format!("0x{}", "ab".repeat(32));
    let h = parse_hash_text(&text).unwrap();
    assert_eq!(h, H256::from_hash([0xab; 32]));
    assert_eq!(parse_hash_text("0xab"), None);
    assert_eq!(parse_hash_text(&format!("0x{}", "gg".repeat(32))), None);
}

#[test]
fn hash_renders_lowercase_hex() {
    let h = H256::from_hash([0xab; 32]);
    assert_eq!(h.hex(), format!("0x{}", "ab".repeat(32)));
    assert_eq!(h.to_vec(), vec![0xab; 32]);
}

#[test]
fn double_sha256_of_known_data() {
    // The double SHA-256 of the empty string, the id construction
    // Bitcoin uses. Fails if the digest wrapper handed its input back.
    let h = H256::from_data(b"");
    assert_eq!(h.hex(), "0x5df6e0e2761359d30a8275058e299fcc0381534545f55cf43e41983f5d4c9456");
    let h2 = H256::from_data(b"hello");
    assert_eq!(h2.hex(), "0x9595c9df90075148eb06860365df33584b75bff782a510c6cd4883a419833d50");
}

#[test]
fn request_bodies_match_the_wire_shape() {
    let client = RpcClient::new("http://node.example".to_string());
    assert_eq!(
        client.get_gas_price_request(),
        "{\"jsonrpc\":\"2.0\",\"method\":\"eth_gasPrice\",\"params\":[],\"id\":1}"
    );
    assert_eq!(
        client.get_block_number_request(),
        "{\"jsonrpc\":\"2.0\",\"method\":\"eth_blockNumber\",\"params\":[],\"id\":1}"
    );
    assert_eq!(
        client.get_block_by_number_request(100),
        "{\"jsonrpc\":\"2.0\",\"method\":\"eth_getBlockByNumber\",\"params\":[\"0x64\",true],\"id\":1}"
    );
    assert_eq!(
        client.get_balance_request("0xabc"),
        "{\"jsonrpc\":\"2.0\",\"method\":\"eth_getBalance\",\"params\":[\"0xabc\",\"pending\"],\"id\":1}"
    );
    assert_eq!(
        client.get_transaction_count_request("0xabc"),
        "{\"jsonrpc\":\"2.0\",\"method\":\"eth_getTransactionCount\",\"params\":[\"0xabc\",\"latest\"],\"id\":1}"
    );
    assert_eq!(
        client.send_raw_transaction_request(&[0xbe, 0xef]),
        "{\"jsonrpc\":\"2.0\",\"method\":\"eth_sendRawTransaction\",\"params\":[\"0xbeef\"],\"id\":1}"
    );
    assert_eq!(request_body("m", "1,2"), "{\"jsonrpc\":\"2.0\",\"method\":\"m\",\"params\":[1,2],\"id\":1}");
}

#[test]
fn bitcoin_request_bodies_match_the_wire_shape() {
    let client = RpcClient::new("http://node.example".to_string());
    assert_eq!(
        client.get_block_count_request(),
        "{\"jsonrpc\":\"2.0\",\"method\":\"getblockcount\",\"params\":[],\"id\":1}"
    );
    assert_eq!(
        client.get_block_hash_request(100),
        "{\"jsonrpc\":\"2.0\",\"method\":\"getblockhash\",\"params\":[100],\"id\":1}"
    );
    let h = H256::from_hash([0xab; 32]);
    assert_eq!(
        client.get_block_request(&h),
        format!(
            "{{\"jsonrpc\":\"2.0\",\"method\":\"getblock\",\"params\":[\"{}\"],\"id\":1}}",
            "ab".repeat(32)
        )
    );
    assert_eq!(
        client.get_raw_transaction_request(&h),
        format!(
            "{{\"jsonrpc\":\"2.0\",\"method\":\"getrawtransaction\",\"params\":[\"{}\",true],\"id\":1}}",
            "ab".repeat(32)
        )
    );
    assert_eq!(
        client.get_raw_mempool_request(),
        "{\"jsonrpc\":\"2.0\",\"method\":\"getrawmempool\",\"params\":[],\"id\":1}"
    );
    assert_eq!(
        client.send_raw_bitcoin_transaction_request(&[0xbe, 0xef]),
        "{\"jsonrpc\":\"2.0\",\"method\":\"sendrawtransaction\",\"params\":[\"beef\"],\"id\":1}"
    );
}

#[test]
fn mempool_response_decodes_txids() {
    let body = format!(
        "{{\"result\":[\"{}\",\"{}\"],\"id\":1}}",
        "11".repeat(32),
        "22".repeat(32)
    );
    let txids = decode_mempool_response(body.as_bytes()).unwrap();
    assert_eq!(txids, vec![H256::from_hash([0x11; 32]), H256::from_hash([0x22; 32])]);
    assert_eq!(decode_mempool_response(b"{\"result\":[]}"), Ok(Vec::new()));
    assert_eq!(decode_mempool_response(b"{\"id\":1}"), Err(RpcError::EmptyResponse));
    assert_eq!(decode_mempool_response(b"{\"result\":[\"xy\"]}"), Err(RpcError::Transport));
    assert_eq!(decode_mempool_response(b"{\"result\":7}"), Err(RpcError::Transport));
}

#[test]
fn bare_hash_response_decodes() {
    let body = format!("{{\"result\":\"{}\"}}", "ab".repeat(32));
    assert_eq!(
        decode_bare_hash_response(body.as_bytes()),
        Ok(H256::from_hash([0xab; 32]))
    );
    // The 0x-prefixed form is not Bitcoin's wire shape.
    let prefixed = format!("{{\"result\":\"0x{}\"}}", "ab".repeat(32));
    assert_eq!(decode_bare_hash_response(prefixed.as_bytes()), Err(RpcError::Transport));
}

#[test]
fn response_with_result_decodes() {
    // Runs the serde_json boundary on literal bytes: the result member
    // is found and judged. Fails if extraction handed the body back.
    let body = b"{\"jsonrpc\":\"2.0\",\"id\":1,\"result\":\"0x64\"}";
    assert_eq!(decode_quantity_response(body), Ok(100));
    let count = b"{\"jsonrpc\":\"2.0\",\"id\":1,\"result\":12}";
    assert_eq!(decode_count_response(count), Ok(12));
    let hash_body = format!(
        "{{\"jsonrpc\":\"2.0\",\"id\":1,\"result\":\"0x{}\"}}",
        "ab".repeat(32)
    );
    assert_eq!(
        decode_hash_response(hash_body.as_bytes()),
        Ok(H256::from_hash([0xab; 32]))
    );
}

#[test]
fn response_without_result_is_empty() {
    let body = b"{\"jsonrpc\":\"2.0\",\"id\":1,\"error\":{\"code\":-5}}";
    assert_eq!(decode_quantity_response(body), Err(RpcError::EmptyResponse));
    assert_eq!(decode_count_response(body), Err(RpcError::EmptyResponse));
    assert_eq!(decode_hash_response(body), Err(RpcError::EmptyResponse));
}

#[test]
fn garbage_bodies_are_transport_errors() {
    assert_eq!(decode_quantity_response(b"not json"), Err(RpcError::Transport));
    // A result of the wrong shape is a decode fault, not emptiness.
    assert_eq!(
        decode_quantity_response(b"{\"result\":12}"),
        Err(RpcError::Transport)
    );
    assert_eq!(
        decode_quantity_response(b"{\"result\":\"64\"}"),
        Err(RpcError::Transport)
    );
    assert_eq!(decode_count_response(b"{\"result\":\"0x64\"}"), Err(RpcError::Transport));
    assert_eq!(decode_hash_response(b"{\"result\":\"0xab\"}"), Err(RpcError::Transport));
}

#[test]
fn result_fields_judged_exactly() {
    assert_eq!(quantity_from_result(&ResultField::Missing), Err(RpcError::EmptyResponse));
    assert_eq!(quantity_from_result(&ResultField::Text("0x10".to_string())), Ok(16));
    assert_eq!(quantity_from_result(&ResultField::Uint(16)), Err(RpcError::Transport));
    assert_eq!(count_from_result(&ResultField::Uint(16)), Ok(16));
    assert_eq!(count_from_result(&ResultField::NoBody), Err(RpcError::Transport));
    assert!(matches!(extract_result(b"{\"result\":\"x\"}"), ResultField::Text(t) if t == "x"));
    assert!(matches!(extract_result(b"{\"result\":[1]}"), ResultField::Other));
    assert_eq!(
        extract_result(b"{\"result\":[\"a\",\"b\"]}"),
        ResultField::Texts(vec!["a".to_string(), "b".to_string()])
    );
    assert_eq!(
        mempool_from_result(&ResultField::Texts(vec!["11".repeat(32)])),
        Ok(vec![H256::from_hash([0x11; 32])])
    );
    assert_eq!(
        mempool_from_result(&ResultField::Texts(vec!["xy".to_string()])),
        Err(RpcError::Transport)
    );
    assert_eq!(mempool_from_result(&ResultField::Missing), Err(RpcError::EmptyResponse));
    assert_eq!(
        bare_hash_from_result(&ResultField::Text("22".repeat(32))),
        Ok(H256::from_hash([0x22; 32]))
    );
    assert_eq!(bare_hash_from_result(&ResultField::Missing), Err(RpcError::EmptyResponse));
    assert!(
        hash_from_result(&ResultField::Text(format!("0x{}", "00".repeat(32))))
            == Ok(H256::from_hash([0; 32]))
    );
}
