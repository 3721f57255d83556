use aquachain_gateway::config::{GatewayConfig, BASE_SEPOLIA_USDC};
use aquachain_gateway::measurement::DroneMeasurement;
use aquachain_gateway::relay::{plan_relay, RelayOutcome, RelayPlan, RelayStatus};
use aquachain_gateway::routes::{
    accept_measurement, capabilities, chrono_now_rfc3339, get_measurement, health,
    new_measurement_id, payment_error, post_step, timestamp_text, PostAction, PostEvent, PostState,
    PHASE,
};
use aquachain_gateway::store::MeasurementStore;
use aquachain_gateway::x402::{
    build_payment_requirements, payment_required_response, requirements_json, PaymentError, PaymentHeaders,
    PaymentSession,
};
use base64::engine::general_purpose::STANDARD;
use base64::Engine;

fn test_state(dev_bypass: bool) -> GatewayConfig {
    GatewayConfig {
        host: "127.0.0.1".into(),
        port: 8081,
        facilitator_url: "https://x402.org/facilitator".into(),
        payto_address: "0x1234567890123456789012345678901234567890".into(),
        x402_network: "base-sepolia".into(),
        x402_asset: "USDC".into(),
        x402_asset_contract: BASE_SEPOLIA_USDC.into(),
        price_usdc: "0.01".into(),
        osmosis_rpc: String::new(),
        osmosis_chain_id: "osmo-test-5".into(),
        osmosis_denom: "uosmo".into(),
        csr_contract: None,
        relayer_mnemonic: None,
        relay_script: String::new(),
        dev_bypass_payment: dev_bypass,
    }
}

fn body() -> DroneMeasurement {
    DroneMeasurement {
        lat: "28.70".into(),
        lon: "77.22".into(),
        turbidity: "14.2".into(),
        image_hash: "sha256:abc".into(),
        flight_id: "test-flight".into(),
        sensor_id: None,
        unit: None,
        site: None,
    }
}

fn is_uuid_v4(s: &str) -> bool {
    s.len() == 36
        && s.chars().enumerate().all(|(i, c)| {
            if [8, 13, 18, 23].contains(&i) {
                c == '-'
            } else {
                c.is_ascii_digit() || ('a'..='f').contains(&c)
            }
        })
        && s.as_bytes()[14] == b'4'
        && b"89ab".contains(&s.as_bytes()[19])
}

#[test]
fn health_returns_g1_phase() {
    let store = MeasurementStore::default();
    let h = health(&test_state(false), &store);
    assert_eq!(h.status, "ok");
    assert_eq!(h.phase, PHASE);
    assert_eq!(h.phase, "g1");
    assert!(!h.relay_ready);
    assert!(h.x402_ready);
    assert_eq!(h.stored_measurements, 0);
}

#[test]
fn post_without_payment_returns_402() {
    let (state, action) =
        post_step(&test_state(false), &body(), &PaymentHeaders::default(), PostState::Start, PostEvent::Begin);
    assert!(matches!(state, PostState::Finished));
    assert!(matches!(action, PostAction::RequirePayment));
    // The 402 answer carries the PAYMENT-REQUIRED header: base64 of the requirements.
    let cfg = test_state(false);
    let base = cfg.public_base_url(&None);
    let reqs = build_payment_requirements(&cfg, "/v1/measurements", &base, Some(10000));
    let json = requirements_json(&reqs);
    let (body, header) = payment_required_response(&cfg, "/v1/measurements", &base, Some(10000));
    assert_eq!(body.error, "Payment Required");
    assert!(!header.is_empty());
    assert_eq!(STANDARD.decode(header).unwrap(), json.as_bytes());
}

#[test]
fn post_with_dev_bypass_accepts() {
    let cfg = test_state(true);
    let m = body();
    let headers = PaymentHeaders::default();
    let (state, action) = post_step(&cfg, &m, &headers, PostState::Start, PostEvent::Begin);
    let id = match action {
        PostAction::Relay { id } => id,
        other => panic!("expected relay, got {:?}", other),
    };
    let outcome = match plan_relay(&cfg, &m, &id) {
        RelayPlan::Skip(o) => o,
        RelayPlan::Run(_) => panic!("relay is not configured"),
    };
    let (state, action) = post_step(&cfg, &m, &headers, state, PostEvent::Relayed(Ok(outcome)));
    assert!(matches!(state, PostState::Finished));
    let mut store = MeasurementStore::default();
    match action {
        PostAction::Accept { id: accepted, relay, payment } => {
            assert_eq!(accepted, id);
            assert_eq!(payment, None);
            let answer = accept_measurement(&mut store, accepted, &m, relay, payment);
            assert!(!answer.id.is_empty());
            assert_eq!(answer.relay.status, "not_configured");
        }
        other => panic!("expected accept, got {:?}", other),
    }
    assert_eq!(store.len(), 1);
    assert!(get_measurement(&store, &id).is_ok());
}

#[test]
fn invalid_measurement_is_refused_first() {
    let mut m = body();
    m.lat = "91".into();
    let headers = PaymentHeaders { signature: Some(b"sig".to_vec()), legacy: None };
    let (state, action) = post_step(&test_state(true), &m, &headers, PostState::Start, PostEvent::Begin);
    assert!(matches!(state, PostState::Finished));
    match action {
        PostAction::Refuse(reply) => {
            assert_eq!(reply.status, 400);
            assert_eq!(reply.body.error, "invalid_measurement");
            assert_eq!(reply.body.details.as_deref(), Some("lat must be a decimal between -90 and 90"));
        }
        other => panic!("expected refusal, got {:?}", other),
    }
}

fn session() -> PaymentSession {
    let reqs = build_payment_requirements(&test_state(false), "/v1/measurements", "http://h", None);
    PaymentSession { payment_header: "sig".into(), requirements: reqs }
}

#[test]
fn paid_flow_verifies_relays_settles() {
    let cfg = test_state(false);
    let m = body();
    let headers = PaymentHeaders { signature: Some(b"sig".to_vec()), legacy: None };
    let (state, action) = post_step(&cfg, &m, &headers, PostState::Start, PostEvent::Begin);
    match action {
        PostAction::VerifyPayment { header } => assert_eq!(header, "sig"),
        other => panic!("expected verify, got {:?}", other),
    }
    let (state, action) = post_step(&cfg, &m, &headers, state, PostEvent::Verified(Ok(session())));
    let id = match action {
        PostAction::Relay { id } => id,
        other => panic!("expected relay, got {:?}", other),
    };
    assert!(is_uuid_v4(&id));
    let outcome = RelayOutcome { status: RelayStatus::Submitted, tx_hash: Some("T".into()), message: "ok".into() };
    let (state, action) = post_step(&cfg, &m, &headers, state, PostEvent::Relayed(Ok(outcome.clone())));
    match action {
        PostAction::Settle { session: s } => assert_eq!(s, session()),
        other => panic!("expected settle, got {:?}", other),
    }
    let (state, action) = post_step(&cfg, &m, &headers, state, PostEvent::Settled(Ok("{}".into())));
    assert!(matches!(state, PostState::Finished));
    match action {
        PostAction::Accept { id: accepted, relay, payment } => {
            assert_eq!(accepted, id);
            assert_eq!(relay, outcome);
            assert_eq!(payment.as_deref(), Some("{}"));
        }
        other => panic!("expected accept, got {:?}", other),
    }
}

#[test]
fn failures_are_answered() {
    let cfg = test_state(false);
    let m = body();
    let headers = PaymentHeaders::default();
    let (_, action) = post_step(
        &cfg,
        &m,
        &headers,
        PostState::AwaitingVerify,
        PostEvent::Verified(Err(PaymentError::VerifyFailed("bad".into()))),
    );
    match action {
        PostAction::Refuse(r) => {
            assert_eq!(r.status, 402);
            assert_eq!(r.body.error, "payment_invalid");
            assert_eq!(r.body.details.as_deref(), Some("bad"));
        }
        other => panic!("{:?}", other),
    }
    let failed = RelayOutcome { status: RelayStatus::Failed, tx_hash: None, message: "gas".into() };
    let (_, action) = post_step(
        &cfg,
        &m,
        &headers,
        PostState::AwaitingRelay { id: "i".into(), session: Some(session()) },
        PostEvent::Relayed(Ok(failed)),
    );
    match action {
        PostAction::Refuse(r) => {
            assert_eq!(r.status, 502);
            assert_eq!(r.body.error, "relay_failed");
            assert_eq!(r.body.details.as_deref(), Some("gas"));
        }
        other => panic!("{:?}", other),
    }
    let (_, action) = post_step(
        &cfg,
        &m,
        &headers,
        PostState::AwaitingRelay { id: "i".into(), session: None },
        PostEvent::Relayed(Err("relay script not found at /x".into())),
    );
    match action {
        PostAction::Refuse(r) => {
            assert_eq!(r.status, 502);
            assert_eq!(r.body.error, "relay_error");
        }
        other => panic!("{:?}", other),
    }
    let ok = RelayOutcome { status: RelayStatus::Submitted, tx_hash: None, message: "m".into() };
    let (_, action) = post_step(
        &cfg,
        &m,
        &headers,
        PostState::AwaitingSettle { id: "i".into(), relay: ok },
        PostEvent::Settled(Err(PaymentError::SettleFailed("late".into()))),
    );
    match action {
        PostAction::Refuse(r) => {
            assert_eq!(r.status, 402);
            assert_eq!(r.body.details.as_deref(), Some("late"));
        }
        other => panic!("{:?}", other),
    }
    let missing = payment_error(PaymentError::MissingHeader);
    assert_eq!(missing.status, 402);
    assert_eq!(missing.body.error, "payment_required");
    assert_eq!(missing.body.details.as_deref(), Some("missing payment header"));
}

#[test]
fn capabilities_listing() {
    let c = capabilities(&test_state(false));
    assert_eq!(c.phase, "g1");
    assert_eq!(c.endpoints.len(), 3);
    assert_eq!(c.endpoints[1].method, "POST");
    assert_eq!(c.endpoints[1].price, "x402 USDC");
    assert_eq!(c.endpoints[2].path, "/v1/measurements/{id}");
    assert_eq!(c.payment.protocol, "x402");
    assert_eq!(c.payment.price_usdc, "0.01");
    assert!(c.payment.ready);
    assert_eq!(c.relay.chain_id, "osmo-test-5");
    assert!(!c.relay.ready);
    assert_eq!(c.sample_payload.flight_id, "yamuna-drone-001");
    assert!(c.sample_payload.validate().is_ok());
}

#[test]
fn missing_measurement_is_404() {
    let store = MeasurementStore::default();
    let err = get_measurement(&store, "nope").unwrap_err();
    assert_eq!(err.status, 404);
    assert_eq!(err.body.error, "not_found");
    assert_eq!(err.body.details, None);
}

#[test]
fn ids_and_timestamps() {
    let a = new_measurement_id();
    let b = new_measurement_id();
    assert!(is_uuid_v4(&a));
    assert_ne!(a, b);
    assert_eq!(timestamp_text(Some(1767225600)), "1767225600");
    assert_eq!(timestamp_text(None), "0");
    assert!(chrono_now_rfc3339().chars().all(|c| c.is_ascii_digit()));
}
