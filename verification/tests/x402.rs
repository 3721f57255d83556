use aquachain_gateway::config::{GatewayConfig, BASE_SEPOLIA_USDC};
use aquachain_gateway::x402::{
    build_payment_requirements, facilitator_endpoint, facilitator_request, has_payment_header,
    payment_header_value, payment_required_response, payment_response_header, requirements_json,
    settle_outcome,
    verify_outcome, FacilitatorReply, FacilitatorStage, PaymentError, PaymentHeaders,
    PaymentRequirements,
};
use base64::engine::general_purpose::STANDARD;
use base64::Engine;
use serde_json::Value;

fn test_config() -> GatewayConfig {
    GatewayConfig {
        host: "127.0.0.1".into(),
        port: 8081,
        facilitator_url: "https://x402.org/facilitator".into(),
        payto_address: "0x1234567890123456789012345678901234567890".into(),
        x402_network: "base-sepolia".into(),
        x402_asset: "USDC".into(),
        x402_asset_contract: BASE_SEPOLIA_USDC.into(),
        price_usdc: "0.01".into(),
        osmosis_rpc: String::new(),
        osmosis_chain_id: "osmo-test-5".into(),
        osmosis_denom: "uosmo".into(),
        csr_contract: None,
        relayer_mnemonic: None,
        relay_script: String::new(),
        dev_bypass_payment: false,
    }
}

fn serde_requirements_json(r: &PaymentRequirements) -> String {
    let mut obj = serde_json::Map::new();
    obj.insert("scheme".into(), Value::String(r.scheme.clone()));
    obj.insert("network".into(), Value::String(r.network.clone()));
    obj.insert("maxAmountRequired".into(), Value::String(r.max_amount_required.clone()));
    obj.insert("payTo".into(), Value::String(r.pay_to.clone()));
    obj.insert("asset".into(), Value::String(r.asset.clone()));
    obj.insert("resource".into(), Value::String(r.resource.clone()));
    obj.insert("maxTimeoutSeconds".into(), Value::from(r.max_timeout_seconds));
    Value::Object(obj).to_string()
}

#[test]
fn payment_required_includes_price_and_network() {
    let cfg = test_config();
    let base = cfg.public_base_url(&None);
    let atomic = cfg.price_usdc.parse::<f64>().ok().map(|d| (d * 1_000_000.0).round() as u64);
    let (body, header) = payment_required_response(&cfg, "/v1/measurements", &base, atomic);
    assert_eq!(body.price, "$0.01");
    assert_eq!(body.network, "base-sepolia");
    assert!(!header.is_empty());
    let decoded = STANDARD.decode(header).unwrap();
    let v: Value = serde_json::from_slice(&decoded).unwrap();
    assert_eq!(v["network"], "base-sepolia");
    assert_eq!(v["maxAmountRequired"], "10000");
}

#[test]
fn requirements_json_is_serde_json_text() {
    let mut cfg = test_config();
    let reqs = build_payment_requirements(&cfg, "/v1/measurements", "https://gw.example", Some(10000));
    assert_eq!(
        requirements_json(&reqs),
        "{\"asset\":\"0x036CbD53842c5426634e7929541eC2318f3dCF7e\",\"maxAmountRequired\":\"10000\",\
         \"maxTimeoutSeconds\":300,\"network\":\"base-sepolia\",\
         \"payTo\":\"0x1234567890123456789012345678901234567890\",\
         \"resource\":\"https://gw.example/v1/measurements\",\"scheme\":\"exact\"}"
    );
    assert_eq!(requirements_json(&reqs), serde_requirements_json(&reqs));
    cfg.x402_network = "q\"b\\s/\u{8}\t\n\u{c}\r\u{1}\u{1f} \u{7f}é😀".into();
    cfg.payto_address = String::new();
    let reqs = build_payment_requirements(&cfg, "/p?a=\"1\"", "http://h", None);
    assert_eq!(requirements_json(&reqs), serde_requirements_json(&reqs));
    assert!(requirements_json(&reqs).contains("\"network\":\"q\\\"b\\\\s/\\b\\t\\n\\f\\r\\u0001\\u001f \u{7f}é😀\""));
}

#[test]
fn required_header_carries_the_requirements() {
    let cfg = test_config();
    for (base, atomic) in [("https://gw.example/", Some(10000)), ("http://h", None)] {
        let reqs = build_payment_requirements(&cfg, "/v1/measurements", base, atomic);
        let (_, header) = payment_required_response(&cfg, "/v1/measurements", base, atomic);
        let decoded = STANDARD.decode(header).unwrap();
        assert_eq!(decoded, requirements_json(&reqs).into_bytes());
        let v: Value = serde_json::from_slice(&decoded).unwrap();
        assert_eq!(v["scheme"], reqs.scheme);
        assert_eq!(v["network"], reqs.network);
        assert_eq!(v["maxAmountRequired"], reqs.max_amount_required);
        assert_eq!(v["payTo"], reqs.pay_to);
        assert_eq!(v["asset"], reqs.asset);
        assert_eq!(v["resource"], reqs.resource);
        assert_eq!(v["maxTimeoutSeconds"], reqs.max_timeout_seconds);
    }
}

#[test]
fn requirements_fields() {
    let cfg = test_config();
    let reqs = build_payment_requirements(&cfg, "/v1/measurements", "https://gw.example//", Some(25));
    assert_eq!(reqs.scheme, "exact");
    assert_eq!(reqs.network, "base-sepolia");
    assert_eq!(reqs.max_amount_required, "25");
    assert_eq!(reqs.pay_to, "0x1234567890123456789012345678901234567890");
    assert_eq!(reqs.asset, BASE_SEPOLIA_USDC);
    assert_eq!(reqs.resource, "https://gw.example/v1/measurements");
    assert_eq!(reqs.max_timeout_seconds, 300);
    let (body, _) = payment_required_response(&cfg, "/v1/measurements", "https://gw.example/", Some(25));
    assert_eq!(body.error, "Payment Required");
    assert_eq!(body.message, "This endpoint requires x402 USDC payment before relaying to Osmosis.");
    assert_eq!(body.asset, "USDC");
    assert_eq!(body.payto, "0x1234567890123456789012345678901234567890");
    assert_eq!(body.facilitator, "https://x402.org/facilitator");
    assert_eq!(body.resource, "https://gw.example/v1/measurements");
}

#[test]
fn base64_headers() {
    assert_eq!(payment_response_header(""), "");
    assert_eq!(payment_response_header("h"), "aA==");
    assert_eq!(payment_response_header("hi"), "aGk=");
    assert_eq!(payment_response_header("{\"success\":true}"), "eyJzdWNjZXNzIjp0cnVlfQ==");
}

#[test]
fn payment_header_choice() {
    let none = PaymentHeaders::default();
    assert!(!has_payment_header(&none));
    let both = PaymentHeaders { signature: Some(b"sig".to_vec()), legacy: Some(b"old".to_vec()) };
    assert_eq!(payment_header_value(&both).as_deref(), Some("sig"));
    let legacy = PaymentHeaders { signature: None, legacy: Some(b"old\tx".to_vec()) };
    assert_eq!(payment_header_value(&legacy).as_deref(), Some("old\tx"));
    let bad = PaymentHeaders { signature: Some(vec![0xc3, 0xa9]), legacy: Some(b"old".to_vec()) };
    assert_eq!(payment_header_value(&bad), None);
    assert!(!has_payment_header(&bad));
}

#[test]
fn facilitator_urls_and_bodies() {
    let mut cfg = test_config();
    assert_eq!(facilitator_endpoint(&cfg, "verify"), "https://x402.org/facilitator/verify");
    cfg.facilitator_url = "https://f.example///".into();
    assert_eq!(facilitator_endpoint(&cfg, "settle"), "https://f.example/settle");
    let reqs = build_payment_requirements(&cfg, "/p", "http://h", None);
    let body = facilitator_request("hdr", &reqs);
    assert_eq!(body.x402_version, 1);
    assert_eq!(body.payment_header, "hdr");
    assert_eq!(body.payment_requirements, reqs);
}

fn answered(ok: bool, verdict: Option<bool>, reason: Option<&str>, error: Option<&str>) -> FacilitatorReply {
    FacilitatorReply::Answered {
        success_status: ok,
        status_text: "400 Bad Request".into(),
        payload_text: "{\"x\":1}".into(),
        verdict,
        reason: reason.map(String::from),
        error: error.map(String::from),
    }
}

#[test]
fn verify_answers() {
    let reqs = build_payment_requirements(&test_config(), "/p", "http://h", None);
    let s = verify_outcome("hdr", &reqs, answered(true, Some(true), None, None)).unwrap();
    assert_eq!(s.payment_header, "hdr");
    assert_eq!(s.requirements, reqs);
    assert!(verify_outcome("hdr", &reqs, answered(true, None, None, None)).is_ok());
    assert_eq!(
        verify_outcome("hdr", &reqs, answered(false, Some(true), None, None)),
        Err(PaymentError::VerifyFailed("facilitator HTTP 400 Bad Request: {\"x\":1}".into()))
    );
    assert_eq!(
        verify_outcome("hdr", &reqs, answered(true, Some(false), Some("\"expired\""), Some("\"e\""))),
        Err(PaymentError::VerifyFailed("\"expired\"".into()))
    );
    assert_eq!(
        verify_outcome("hdr", &reqs, answered(true, Some(false), None, Some("\"e\""))),
        Err(PaymentError::VerifyFailed("\"e\"".into()))
    );
    assert_eq!(
        verify_outcome("hdr", &reqs, answered(true, Some(false), None, None)),
        Err(PaymentError::VerifyFailed("invalid payment".into()))
    );
    let cut = FacilitatorReply::Unreachable { stage: FacilitatorStage::Send, detail: "dns".into() };
    assert_eq!(
        verify_outcome("hdr", &reqs, cut),
        Err(PaymentError::VerifyFailed("facilitator verify request failed".into()))
    );
    let cut = FacilitatorReply::Unreachable { stage: FacilitatorStage::Parse, detail: "eof".into() };
    assert_eq!(
        verify_outcome("hdr", &reqs, cut),
        Err(PaymentError::VerifyFailed("facilitator verify response parse failed".into()))
    );
}

#[test]
fn settle_answers() {
    assert_eq!(settle_outcome(answered(true, Some(true), None, None)), Ok("{\"x\":1}".to_string()));
    assert_eq!(
        settle_outcome(answered(true, Some(false), None, None)),
        Err(PaymentError::SettleFailed("settlement failed".into()))
    );
    assert_eq!(
        settle_outcome(answered(false, None, None, None)),
        Err(PaymentError::SettleFailed("facilitator HTTP 400 Bad Request: {\"x\":1}".into()))
    );
    let cut = FacilitatorReply::Unreachable { stage: FacilitatorStage::Send, detail: "timeout".into() };
    assert_eq!(settle_outcome(cut), Err(PaymentError::SettleFailed("timeout".into())));
    let cut = FacilitatorReply::Unreachable { stage: FacilitatorStage::Client, detail: "tls".into() };
    assert_eq!(settle_outcome(cut), Err(PaymentError::SettleFailed("build facilitator HTTP client".into())));
}

#[test]
fn payment_error_messages() {
    assert_eq!(PaymentError::MissingHeader.message(), "missing payment header");
    assert_eq!(PaymentError::VerifyFailed("x".into()).message(), "payment verification failed: x");
    assert_eq!(PaymentError::SettleFailed("y".into()).message(), "payment settlement failed: y");
}
