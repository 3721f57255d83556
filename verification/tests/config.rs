use aquachain_gateway::config::{
    atomic_price_text, ConfigError, EnvSnapshot, GatewayConfig, RunWarning, BASE_SEPOLIA_USDC,
};

fn config(payto: &str, csr: Option<&str>, mnemonic: Option<&str>, bypass: bool) -> GatewayConfig {
    GatewayConfig {
        host: "127.0.0.1".into(),
        port: 8081,
        facilitator_url: String::new(),
        payto_address: payto.into(),
        x402_network: "base-sepolia".into(),
        x402_asset: "USDC".into(),
        x402_asset_contract: BASE_SEPOLIA_USDC.into(),
        price_usdc: "0.01".into(),
        osmosis_rpc: String::new(),
        osmosis_chain_id: "osmo-test-5".into(),
        osmosis_denom: "uosmo".into(),
        csr_contract: csr.map(String::from),
        relayer_mnemonic: mnemonic.map(String::from),
        relay_script: String::new(),
        dev_bypass_payment: bypass,
    }
}

#[test]
fn default_port_parses() {
    let cfg = config("", None, None, false);
    assert!(!cfg.relay_ready());
    assert!(!cfg.x402_ready());
    assert_eq!(cfg.bind_addr(), "127.0.0.1:8081");
}

#[test]
fn relay_ready_when_both_set() {
    let cfg = GatewayConfig {
        host: String::new(),
        port: 1,
        facilitator_url: String::new(),
        payto_address: "0xabc".into(),
        x402_network: String::new(),
        x402_asset: String::new(),
        x402_asset_contract: String::new(),
        price_usdc: String::new(),
        osmosis_rpc: String::new(),
        osmosis_chain_id: String::new(),
        osmosis_denom: String::new(),
        csr_contract: Some("osmo1test".into()),
        relayer_mnemonic: Some("word".into()),
        relay_script: String::new(),
        dev_bypass_payment: false,
    };
    assert!(cfg.relay_ready());
    assert!(cfg.x402_ready());
}

#[test]
fn port_from_render_env() {
    let vars = EnvSnapshot { port: Some("10000".into()), ..Default::default() };
    let cfg = GatewayConfig::from_env(&vars).expect("from_env");
    assert_eq!(cfg.port, 10000);
}

#[test]
fn invalid_port_errors() {
    let vars = EnvSnapshot { agent_gateway_port: Some("not-a-port".into()), ..Default::default() };
    let err = GatewayConfig::from_env(&vars).unwrap_err();
    assert_eq!(err, ConfigError::InvalidPort);
    assert!(err.message().contains("AGENT_GATEWAY_PORT"));
}

#[test]
fn invalid_agent_port_errors_even_when_port_is_set() {
    let vars = EnvSnapshot {
        port: Some("10000".into()),
        agent_gateway_port: Some("not-a-port".into()),
        ..Default::default()
    };
    assert_eq!(GatewayConfig::from_env(&vars).unwrap_err(), ConfigError::InvalidPort);
    let vars = EnvSnapshot {
        port: Some("10000".into()),
        agent_gateway_port: Some("9999".into()),
        ..Default::default()
    };
    assert_eq!(GatewayConfig::from_env(&vars).unwrap().port, 10000);
}

#[test]
fn from_env_defaults() {
    let cfg = GatewayConfig::from_env(&EnvSnapshot::default()).unwrap();
    assert_eq!(cfg.port, 8081);
    assert_eq!(cfg.host, "0.0.0.0");
    assert_eq!(cfg.facilitator_url, "https://x402.org/facilitator");
    assert_eq!(cfg.payto_address, "");
    assert_eq!(cfg.x402_network, "base-sepolia");
    assert_eq!(cfg.x402_asset, "USDC");
    assert_eq!(cfg.x402_asset_contract, BASE_SEPOLIA_USDC);
    assert_eq!(cfg.price_usdc, "0.01");
    assert_eq!(cfg.osmosis_rpc, "https://rpc.osmotest5.osmosis.zone");
    assert_eq!(cfg.osmosis_chain_id, "osmo-test-5");
    assert_eq!(cfg.osmosis_denom, "uosmo");
    assert_eq!(cfg.csr_contract, None);
    assert_eq!(cfg.relayer_mnemonic, None);
    assert_eq!(cfg.relay_script, "");
    assert!(!cfg.dev_bypass_payment);
}

#[test]
fn port_variable_precedence_and_forms() {
    let vars = EnvSnapshot {
        port: Some("+0080".into()),
        agent_gateway_port: Some("9999".into()),
        ..Default::default()
    };
    assert_eq!(GatewayConfig::from_env(&vars).unwrap().port, 80);
    for bad in ["65536", "", "+", "-1", " 80", "80 ", "8o"] {
        let vars = EnvSnapshot { port: Some(bad.into()), ..Default::default() };
        assert_eq!(GatewayConfig::from_env(&vars).unwrap_err(), ConfigError::InvalidPort, "{:?}", bad);
    }
    let vars = EnvSnapshot { port: Some("65535".into()), ..Default::default() };
    assert_eq!(GatewayConfig::from_env(&vars).unwrap().port, 65535);
}

#[test]
fn blank_secrets_are_unset_and_bypass_words() {
    let vars = EnvSnapshot {
        csr_contract_address: Some(" \t".into()),
        relayer_mnemonic: Some(" word ".into()),
        x402_dev_bypass: Some("TrUe".into()),
        ..Default::default()
    };
    let cfg = GatewayConfig::from_env(&vars).unwrap();
    assert_eq!(cfg.csr_contract, None);
    assert_eq!(cfg.relayer_mnemonic.as_deref(), Some(" word "));
    assert!(cfg.dev_bypass_payment);
    for (word, on) in [("1", true), ("YES", true), ("yes", true), ("on", false), ("0", false), (" true", false)] {
        let vars = EnvSnapshot { x402_dev_bypass: Some(word.into()), ..Default::default() };
        assert_eq!(GatewayConfig::from_env(&vars).unwrap().dev_bypass_payment, on, "{:?}", word);
    }
}

#[test]
fn run_warnings_follow_configuration() {
    let cfg = config("", None, None, false);
    assert_eq!(cfg.validate_for_run(), vec![RunWarning::PaytoMissing, RunWarning::RelayNotConfigured]);
    let cfg = config("", Some("c"), Some("m"), true);
    assert_eq!(cfg.validate_for_run(), vec![RunWarning::DevBypassEnabled]);
    let cfg = config("0xabc", Some("c"), Some("m"), false);
    assert!(cfg.validate_for_run().is_empty());
    assert_eq!(
        RunWarning::RelayNotConfigured.message(),
        "Relay not configured: Osmosis submission stays queued (G1)"
    );
}

#[test]
fn public_base_url_and_addresses() {
    let cfg = config("0xabc", None, None, false);
    assert_eq!(cfg.public_base_url(&None), "http://localhost:8081");
    assert_eq!(cfg.public_base_url(&Some("https://gw.example/".into())), "https://gw.example/");
    assert_eq!(cfg.x402_asset_address(), BASE_SEPOLIA_USDC);
    assert_eq!(cfg.relay_script_override(), None);
    let mut cfg = cfg;
    cfg.relay_script = "/opt/relay.mjs".into();
    assert_eq!(cfg.relay_script_override().as_deref(), Some("/opt/relay.mjs"));
    cfg.port = 0;
    cfg.host = "::".into();
    assert_eq!(cfg.bind_addr(), ":::0");
}

#[test]
fn price_atomic_usdc_parses_cents() {
    // The dollar price "0.01" is 10000 atomic units.
    let atomic = "0.01".parse::<f64>().ok().map(|d| (d * 1_000_000.0).round() as u64);
    assert_eq!(atomic_price_text(atomic), "10000");
    assert_eq!(atomic_price_text(None), "10000");
    assert_eq!(atomic_price_text(Some(0)), "0");
    assert_eq!(atomic_price_text(Some(u64::MAX)), "18446744073709551615");
}
