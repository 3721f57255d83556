use aquachain_gateway::config::GatewayConfig;
use aquachain_gateway::measurement::DroneMeasurement;
use aquachain_gateway::relay::{finish_relay, plan_relay, RelayOutcome, RelayPlan, RelayStatus, ScriptReply};

fn cfg(csr: Option<&str>, mnemonic: Option<&str>) -> GatewayConfig {
    GatewayConfig {
        host: String::new(),
        port: 1,
        facilitator_url: String::new(),
        payto_address: String::new(),
        x402_network: String::new(),
        x402_asset: String::new(),
        x402_asset_contract: String::new(),
        price_usdc: String::new(),
        osmosis_rpc: "https://rpc".into(),
        osmosis_chain_id: String::new(),
        osmosis_denom: "uosmo".into(),
        csr_contract: csr.map(String::from),
        relayer_mnemonic: mnemonic.map(String::from),
        relay_script: String::new(),
        dev_bypass_payment: false,
    }
}

fn measurement(sensor_id: Option<u64>) -> DroneMeasurement {
    DroneMeasurement {
        lat: "1".into(),
        lon: "1".into(),
        turbidity: "1".into(),
        image_hash: "h".into(),
        flight_id: "f".into(),
        sensor_id,
        unit: None,
        site: None,
    }
}

#[test]
fn relay_not_configured_queues() {
    match plan_relay(&cfg(None, None), &measurement(None), "id-1") {
        RelayPlan::Skip(out) => {
            assert_eq!(out.status, RelayStatus::NotConfigured);
            assert_eq!(
                out.message,
                "Measurement id-1 validated; configure RELAYER_MNEMONIC and CSR_CONTRACT_ADDRESS for Osmosis relay"
            );
        }
        RelayPlan::Run(_) => panic!("relay is not configured"),
    }
}

#[test]
fn relay_job_carries_configuration() {
    match plan_relay(&cfg(Some("osmo1c"), Some("words")), &measurement(None), "id-2") {
        RelayPlan::Run(job) => {
            assert_eq!(job.rpc, "https://rpc");
            assert_eq!(job.denom, "uosmo");
            assert_eq!(job.contract, "osmo1c");
            assert_eq!(job.mnemonic, "words");
            assert_eq!(job.sensor_id, 1);
            assert_eq!(job.data.source, "drone_agent");
        }
        RelayPlan::Skip(_) => panic!("relay is configured"),
    }
    match plan_relay(&cfg(Some("osmo1c"), Some("words")), &measurement(Some(7)), "id-3") {
        RelayPlan::Run(job) => assert_eq!(job.sensor_id, 7),
        RelayPlan::Skip(_) => panic!("relay is configured"),
    }
    assert!(matches!(plan_relay(&cfg(Some("c"), None), &measurement(None), "x"), RelayPlan::Skip(_)));
}

#[test]
fn script_answers_become_outcomes() {
    let ok = ScriptReply { ok: true, tx_hash: Some("ABC".into()), error: None };
    assert_eq!(
        finish_relay(Some(ok), Some(0), "{}", "m1"),
        RelayOutcome {
            status: RelayStatus::Submitted,
            tx_hash: Some("ABC".into()),
            message: "submit_data broadcast for measurement m1".into()
        }
    );
    let failed = ScriptReply { ok: false, tx_hash: Some("ignored".into()), error: Some("out of gas".into()) };
    let out = finish_relay(Some(failed), Some(1), "", "m1");
    assert_eq!(out.status, RelayStatus::Failed);
    assert_eq!(out.tx_hash, None);
    assert_eq!(out.message, "out of gas");
    let silent = ScriptReply { ok: false, tx_hash: None, error: None };
    assert_eq!(finish_relay(Some(silent), Some(1), "", "m1").message, "relay script failed");
    let out = finish_relay(None, Some(-3), "  boom \n", "m1");
    assert_eq!(out.status, RelayStatus::Failed);
    assert_eq!(out.message, "invalid relay output (exit -3): boom");
    assert_eq!(finish_relay(None, None, "", "m1").message, "invalid relay output (exit 1): ");
}

#[test]
fn relay_status_names() {
    let mut out = RelayOutcome { status: RelayStatus::Queued, tx_hash: None, message: "m".into() };
    assert_eq!(out.to_api().status, "queued");
    out.status = RelayStatus::Submitted;
    assert_eq!(out.to_api().status, "submitted");
    out.status = RelayStatus::NotConfigured;
    assert_eq!(out.to_api().status, "not_configured");
    out.status = RelayStatus::Failed;
    out.tx_hash = Some("t".into());
    let api = out.to_api();
    assert_eq!(api.status, "failed");
    assert_eq!(api.tx_hash.as_deref(), Some("t"));
    assert_eq!(api.message, "m");
}
