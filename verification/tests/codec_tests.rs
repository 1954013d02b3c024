use balance_resolver::codec::{encode_hex, GetEthBalanceBody, GetEthBalanceResp, GetRpcRequestBody, MAX_WEI};
use balance_resolver::errors::ResolveError;

fn resp(result: &str) -> GetEthBalanceResp {
    GetEthBalanceResp { jsonrpc: "2.0".to_string(), id: 1, result: result.to_string() }
}

#[test]
fn decode_one_eth() {
    let r = resp("0xde0b6b3a7640000");
    let wei = r.decode_balance().unwrap();
    assert_eq!(wei, 1_000_000_000_000_000_000u128);
    let eth = wei as f64 / 1e18;
    assert_eq!(eth, 1.0);
}

#[test]
fn decode_small_values() {
    assert_eq!(resp("0x0").decode_balance(), Ok(0));
    assert_eq!(resp("0x1").decode_balance(), Ok(1));
    assert_eq!(resp("0xf").decode_balance(), Ok(15));
    assert_eq!(resp("0x10").decode_balance(), Ok(16));
    assert_eq!(resp("0xff").decode_balance(), Ok(255));
    assert_eq!(resp("0x00ff").decode_balance(), Ok(255));
}

#[test]
fn decode_accepts_upper_case_digits() {
    assert_eq!(resp("0xFF").decode_balance(), Ok(255));
    assert_eq!(resp("0xDE0B6B3A7640000").decode_balance(), Ok(1_000_000_000_000_000_000));
    assert_eq!(resp("0xAbCdEf").decode_balance(), Ok(0xabcdef));
}

#[test]
fn decode_rejects_missing_prefix() {
    assert_eq!(resp("not-hex").decode_balance(), Err(ResolveError::MalformedResponse));
    assert_eq!(resp("").decode_balance(), Err(ResolveError::MalformedResponse));
    assert_eq!(resp("0").decode_balance(), Err(ResolveError::MalformedResponse));
    assert_eq!(resp("1234").decode_balance(), Err(ResolveError::MalformedResponse));
    assert_eq!(resp("x0ff").decode_balance(), Err(ResolveError::MalformedResponse));
    assert_eq!(resp("0X1f").decode_balance(), Err(ResolveError::MalformedResponse));
}

#[test]
fn decode_rejects_empty_payload() {
    assert_eq!(resp("0x").decode_balance(), Err(ResolveError::NumericDecodeError));
}

#[test]
fn decode_rejects_non_hex_characters() {
    assert_eq!(resp("0xzz").decode_balance(), Err(ResolveError::NumericDecodeError));
    assert_eq!(resp("0x12g4").decode_balance(), Err(ResolveError::NumericDecodeError));
    assert_eq!(resp("0x-5").decode_balance(), Err(ResolveError::NumericDecodeError));
    assert_eq!(resp("0x 1").decode_balance(), Err(ResolveError::NumericDecodeError));
    assert_eq!(resp("0x1.5").decode_balance(), Err(ResolveError::NumericDecodeError));
}

#[test]
fn decode_bound_is_the_signed_128_bit_limit() {
    // exactly MAX_WEI: 2^127 - 1
    assert_eq!(
        resp("0x7fffffffffffffffffffffffffffffff").decode_balance(),
        Ok(i128::MAX as u128)
    );
    // one more: 2^127
    assert_eq!(
        resp("0x80000000000000000000000000000000").decode_balance(),
        Err(ResolveError::NumericDecodeError)
    );
    // far larger
    assert_eq!(
        resp("0xffffffffffffffffffffffffffffffffff").decode_balance(),
        Err(ResolveError::NumericDecodeError)
    );
}

#[test]
fn encode_hex_forms() {
    assert_eq!(encode_hex(0), "0x0");
    assert_eq!(encode_hex(1), "0x1");
    assert_eq!(encode_hex(15), "0xf");
    assert_eq!(encode_hex(16), "0x10");
    assert_eq!(encode_hex(255), "0xff");
    assert_eq!(encode_hex(1_000_000_000_000_000_000), "0xde0b6b3a7640000");
}

#[test]
fn decode_encode_round_trip() {
    let samples: [u128; 9] = [
        0,
        1,
        15,
        16,
        255,
        4096,
        1_000_000_000_000_000_000,
        u64::MAX as u128,
        MAX_WEI,
    ];
    for n in samples {
        let r = resp(&encode_hex(n));
        assert_eq!(r.decode_balance(), Ok(n));
        let eth = n as f64 / 1e18;
        assert_eq!(r.decode_balance().unwrap() as f64 / 1e18, eth);
    }
}

#[test]
fn balance_request_body_exact() {
    let body = GetEthBalanceBody::new("0xabc").json_body();
    assert_eq!(
        body,
        "{\"jsonrpc\":\"2.0\",\"method\":\"eth_getBalance\",\"params\":[\"0xabc\",\"latest\"],\"id\":1}"
    );
}

#[test]
fn rpc_request_body_exact() {
    let body = GetRpcRequestBody::new("hash123", "eth_getTransactionByHash").json_body();
    assert_eq!(
        body,
        "{\"jsonrpc\":\"2.0\",\"method\":\"eth_getTransactionByHash\",\"params\":[\"hash123\",\"latest\"],\"id\":1}"
    );
}

#[test]
fn request_body_is_valid_json() {
    let body = GetEthBalanceBody::new("0xabc").json_body();
    let v: serde_json::Value = serde_json::from_str(&body).unwrap();
    assert_eq!(v["jsonrpc"], "2.0");
    assert_eq!(v["method"], "eth_getBalance");
    assert_eq!(v["params"][0], "0xabc");
    assert_eq!(v["params"][1], "latest");
    assert_eq!(v["id"], 1);
}

#[test]
fn request_body_escapes_address() {
    let tricky = "a\"b\\c\nd\te\u{1}f";
    let body = GetEthBalanceBody::new(tricky).json_body();
    let v: serde_json::Value = serde_json::from_str(&body).unwrap();
    assert_eq!(v["params"][0], tricky);

    let quote = GetRpcRequestBody::new("x", "m\"th\u{1f}od").json_body();
    let v2: serde_json::Value = serde_json::from_str(&quote).unwrap();
    assert_eq!(v2["method"], "m\"th\u{1f}od");
}

#[test]
fn error_messages() {
    assert_eq!(
        ResolveError::MalformedResponse.message(),
        "string is not in hex format (prefixed with 0x)"
    );
    assert_eq!(
        ResolveError::NumericDecodeError.message(),
        "couldn't parse the wei hex value into an integer"
    );
    assert_eq!(
        ResolveError::ConfigurationError.message(),
        "couldn't get API key from environment"
    );
}
