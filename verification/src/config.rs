//! Gateway configuration: the values read from the environment and the rules
//! that derive settings from them.

use vstd::prelude::*;
use crate::text::{
    ascii_lower, ascii_lower_chars, chars_equal, chars_of, concat_text, decimal, decimal_text,
    is_blank, is_blank_spec, is_ws, lemma_blank_iff_all_ws, law_port_round_trip, parse_u16,
    parse_u16_spec, push_decimal,
};
use crate::measurement::clone_opt_text;

verus! {

/// Base Sepolia USDC (Circle testnet).
pub const BASE_SEPOLIA_USDC: &'static str = "0x036CbD53842c5426634e7929541eC2318f3dCF7e";

/// Runtime configuration for the agent gateway HTTP server and relay.
#[derive(Debug)]
pub struct GatewayConfig {
    pub host: String,
    pub port: u16,
    pub facilitator_url: String,
    pub payto_address: String,
    pub x402_network: String,
    pub x402_asset: String,
    pub x402_asset_contract: String,
    pub price_usdc: String,
    pub osmosis_rpc: String,
    pub osmosis_chain_id: String,
    pub osmosis_denom: String,
    pub csr_contract: Option<String>,
    pub relayer_mnemonic: Option<String>,
    pub relay_script: String,
    pub dev_bypass_payment: bool,
}

impl Clone for GatewayConfig {
    fn clone(&self) -> (r: Self)
        ensures
            r == *self,
    {
        GatewayConfig {
            host: self.host.clone(),
            port: self.port,
            facilitator_url: self.facilitator_url.clone(),
            payto_address: self.payto_address.clone(),
            x402_network: self.x402_network.clone(),
            x402_asset: self.x402_asset.clone(),
            x402_asset_contract: self.x402_asset_contract.clone(),
            price_usdc: self.price_usdc.clone(),
            osmosis_rpc: self.osmosis_rpc.clone(),
            osmosis_chain_id: self.osmosis_chain_id.clone(),
            osmosis_denom: self.osmosis_denom.clone(),
            csr_contract: clone_opt_text(&self.csr_contract),
            relayer_mnemonic: clone_opt_text(&self.relayer_mnemonic),
            relay_script: self.relay_script.clone(),
            dev_bypass_payment: self.dev_bypass_payment,
        }
    }
}

/// The environment variables the gateway reads; `None` where a variable is unset
/// or not valid Unicode.
#[derive(Debug, Default)]
pub struct EnvSnapshot {
    /// `PORT`
    pub port: Option<String>,
    /// `AGENT_GATEWAY_PORT`
    pub agent_gateway_port: Option<String>,
    /// `AGENT_GATEWAY_HOST`
    pub agent_gateway_host: Option<String>,
    /// `X402_FACILITATOR_URL`
    pub x402_facilitator_url: Option<String>,
    /// `X402_PAYTO_ADDRESS`
    pub x402_payto_address: Option<String>,
    /// `X402_NETWORK`
    pub x402_network: Option<String>,
    /// `X402_ASSET`
    pub x402_asset: Option<String>,
    /// `X402_ASSET_CONTRACT`
    pub x402_asset_contract: Option<String>,
    /// `X402_PRICE_USDC`
    pub x402_price_usdc: Option<String>,
    /// `OSMOSIS_RPC`
    pub osmosis_rpc: Option<String>,
    /// `OSMOSIS_CHAIN_ID`
    pub osmosis_chain_id: Option<String>,
    /// `OSMOSIS_DENOM`
    pub osmosis_denom: Option<String>,
    /// `CSR_CONTRACT_ADDRESS`
    pub csr_contract_address: Option<String>,
    /// `RELAYER_MNEMONIC`
    pub relayer_mnemonic: Option<String>,
    /// `RELAY_SCRIPT`
    pub relay_script: Option<String>,
    /// `X402_DEV_BYPASS`
    pub x402_dev_bypass: Option<String>,
}

/// Configuration failures.
#[derive(Debug, Clone, Copy, PartialEq, Eq, Structural)]
pub enum ConfigError {
    /// `AGENT_GATEWAY_PORT` is set and is no number in `0..=65535`, or the port
    /// in use (`PORT`, else `AGENT_GATEWAY_PORT`, else `8081`) is none.
    InvalidPort,
}

impl ConfigError {
    /// The text of the error.
    pub open spec fn message_spec(self) -> Seq<char> {
        "PORT / AGENT_GATEWAY_PORT must be a valid port number"@
    }

    /// The text of the error, as shown to operators.
    pub fn message(&self) -> (r: String)
        ensures
            r@ == self.message_spec(),
    {
        "PORT / AGENT_GATEWAY_PORT must be a valid port number".to_owned()
    }
}

/// A warning about a configuration that runs, but not fully.
#[derive(Debug, Clone, Copy, PartialEq, Eq, Structural)]
pub enum RunWarning {
    /// Payment is skipped for measurements.
    DevBypassEnabled,
    /// No pay-to address: the measurements endpoint only answers 402.
    PaytoMissing,
    /// Osmosis relay is not configured: submissions are not relayed.
    RelayNotConfigured,
}

impl RunWarning {
    /// The text that is logged for the warning.
    pub open spec fn message_spec(self) -> Seq<char> {
        match self {
            RunWarning::DevBypassEnabled => "X402_DEV_BYPASS is enabled: POST /v1/measurements skips payment"@,
            RunWarning::PaytoMissing => "X402_PAYTO_ADDRESS is empty: measurements endpoint returns 402 stub only"@,
            RunWarning::RelayNotConfigured => "Relay not configured: Osmosis submission stays queued (G1)"@,
        }
    }

    /// The text that is logged for the warning.
    pub fn message(&self) -> (r: String)
        ensures
            r@ == self.message_spec(),
    {
        match self {
            RunWarning::DevBypassEnabled => "X402_DEV_BYPASS is enabled: POST /v1/measurements skips payment".to_owned(),
            RunWarning::PaytoMissing => "X402_PAYTO_ADDRESS is empty: measurements endpoint returns 402 stub only".to_owned(),
            RunWarning::RelayNotConfigured => "Relay not configured: Osmosis submission stays queued (G1)".to_owned(),
        }
    }
}

/// The text of `o`, else `d`.
pub open spec fn text_or(o: Option<String>, d: Seq<char>) -> Seq<char> {
    match o {
        Some(v) => v@,
        None => d,
    }
}

/// The port text: `PORT`, else `AGENT_GATEWAY_PORT`, else `8081`.
pub open spec fn port_text(vars: EnvSnapshot) -> Seq<char> {
    match vars.port {
        Some(p) => p@,
        None => text_or(vars.agent_gateway_port, "8081"@),
    }
}

/// Whether `AGENT_GATEWAY_PORT` is set to something that is no u16.
pub open spec fn agent_port_invalid(vars: EnvSnapshot) -> bool {
    match vars.agent_gateway_port {
        Some(a) => parse_u16_spec(a@) is None,
        None => false,
    }
}

/// Whether the environment's port settings are refused.
pub open spec fn port_refused(vars: EnvSnapshot) -> bool {
    agent_port_invalid(vars) || parse_u16_spec(port_text(vars)) is None
}

/// `o` where it holds something besides whitespace.
pub open spec fn present(o: Option<String>) -> Option<String> {
    match o {
        Some(v) => if is_blank_spec(v@) {
            None
        } else {
            Some(v)
        },
        None => None,
    }
}

/// Whether `X402_DEV_BYPASS` is `1`, `true` or `yes` in any ASCII case.
pub open spec fn bypass_spec(o: Option<String>) -> bool {
    match o {
        Some(v) => ascii_lower(v@) == "1"@ || ascii_lower(v@) == "true"@ || ascii_lower(v@)
            == "yes"@,
        None => false,
    }
}

/// The text of `o`, else the literal `d`.
fn text_or_exec(o: &Option<String>, d: &str) -> (r: String)
    ensures
        r@ == text_or(*o, d@),
{
    match o {
        Some(v) => v.clone(),
        None => d.to_owned(),
    }
}

/// `o` where it holds something besides whitespace.
fn present_exec(o: &Option<String>) -> (r: Option<String>)
    ensures
        r == present(*o),
{
    match o {
        Some(v) => if is_blank(v.as_str()) {
            None
        } else {
            Some(v.clone())
        },
        None => None,
    }
}

/// Whether `X402_DEV_BYPASS` turns payment off.
fn bypass_exec(o: &Option<String>) -> (r: bool)
    ensures
        r == bypass_spec(*o),
{
    match o {
        Some(v) => {
            let lower = ascii_lower_chars(v.as_str());
            let one = chars_of("1");
            let t = chars_of("true");
            let y = chars_of("yes");
            chars_equal(&lower, &one) || chars_equal(&lower, &t) || chars_equal(&lower, &y)
        },
        None => false,
    }
}

impl GatewayConfig {
    /// Builds the configuration from environment values.
    ///
    /// The port is `PORT`, else `AGENT_GATEWAY_PORT`, else `8081`. An
    /// `AGENT_GATEWAY_PORT` that is set and is no valid u16 is refused even
    /// where `PORT` takes precedence.
    pub fn from_env(vars: &EnvSnapshot) -> (r: Result<GatewayConfig, ConfigError>)
        ensures
            r is Err <==> port_refused(*vars),
            r matches Err(e) ==> e == ConfigError::InvalidPort,
            vars.port is None && vars.agent_gateway_port is None ==> (r matches Ok(cfg) && cfg.port
                == 8081),
            vars.port is None && vars.agent_gateway_port is Some && parse_u16_spec(
                vars.agent_gateway_port->0@,
            ) is Some ==> (r matches Ok(cfg) && Some(cfg.port) == parse_u16_spec(
                vars.agent_gateway_port->0@,
            )),
            vars.port is Some && parse_u16_spec(vars.port->0@) is Some && (
            vars.agent_gateway_port is Some ==> parse_u16_spec(vars.agent_gateway_port->0@) is Some)
                ==> (r matches Ok(cfg) && Some(cfg.port) == parse_u16_spec(vars.port->0@)),
            vars.agent_gateway_port is Some && parse_u16_spec(vars.agent_gateway_port->0@) is None
                ==> r is Err,
            vars.port is Some && parse_u16_spec(vars.port->0@) is None ==> r is Err,
            r matches Ok(cfg) ==> {
                &&& parse_u16_spec(port_text(*vars)) == Some(cfg.port)
                &&& cfg.host@ == text_or(vars.agent_gateway_host, "0.0.0.0"@)
                &&& cfg.facilitator_url@ == text_or(
                    vars.x402_facilitator_url,
                    "https://x402.org/facilitator"@,
                )
                &&& cfg.payto_address@ == text_or(vars.x402_payto_address, ""@)
                &&& cfg.x402_network@ == text_or(vars.x402_network, "base-sepolia"@)
                &&& cfg.x402_asset@ == text_or(vars.x402_asset, "USDC"@)
                &&& cfg.x402_asset_contract@ == text_or(
                    vars.x402_asset_contract,
                    BASE_SEPOLIA_USDC@,
                )
                &&& cfg.price_usdc@ == text_or(vars.x402_price_usdc, "0.01"@)
                &&& cfg.osmosis_rpc@ == text_or(
                    vars.osmosis_rpc,
                    "https://rpc.osmotest5.osmosis.zone"@,
                )
                &&& cfg.osmosis_chain_id@ == text_or(vars.osmosis_chain_id, "osmo-test-5"@)
                &&& cfg.osmosis_denom@ == text_or(vars.osmosis_denom, "uosmo"@)
                &&& cfg.csr_contract == present(vars.csr_contract_address)
                &&& cfg.relayer_mnemonic == present(vars.relayer_mnemonic)
                &&& cfg.relay_script@ == text_or(vars.relay_script, ""@)
                &&& cfg.dev_bypass_payment == bypass_spec(vars.x402_dev_bypass)
            },
    {
        proof {
            law_port_selection(*vars);
        }
        if let Some(a) = &vars.agent_gateway_port {
            if parse_u16(a.as_str()).is_none() {
                return Err(ConfigError::InvalidPort);
            }
        }
        let port_raw = match &vars.port {
            Some(p) => p.clone(),
            None => text_or_exec(&vars.agent_gateway_port, "8081"),
        };
        let port = match parse_u16(port_raw.as_str()) {
            Some(p) => p,
            None => {
                return Err(ConfigError::InvalidPort);
            },
        };
        Ok(GatewayConfig {
            host: text_or_exec(&vars.agent_gateway_host, "0.0.0.0"),
            port,
            facilitator_url: text_or_exec(&vars.x402_facilitator_url, "https://x402.org/facilitator"),
            payto_address: text_or_exec(&vars.x402_payto_address, ""),
            x402_network: text_or_exec(&vars.x402_network, "base-sepolia"),
            x402_asset: text_or_exec(&vars.x402_asset, "USDC"),
            x402_asset_contract: text_or_exec(&vars.x402_asset_contract, BASE_SEPOLIA_USDC),
            price_usdc: text_or_exec(&vars.x402_price_usdc, "0.01"),
            osmosis_rpc: text_or_exec(&vars.osmosis_rpc, "https://rpc.osmotest5.osmosis.zone"),
            osmosis_chain_id: text_or_exec(&vars.osmosis_chain_id, "osmo-test-5"),
            osmosis_denom: text_or_exec(&vars.osmosis_denom, "uosmo"),
            csr_contract: present_exec(&vars.csr_contract_address),
            relayer_mnemonic: present_exec(&vars.relayer_mnemonic),
            relay_script: text_or_exec(&vars.relay_script, ""),
            dev_bypass_payment: bypass_exec(&vars.x402_dev_bypass),
        })
    }

    /// Whether relay to Osmosis is fully configured.
    pub open spec fn relay_ready_spec(&self) -> bool {
        self.csr_contract is Some && self.relayer_mnemonic is Some
    }

    /// Whether relay to Osmosis is fully configured.
    pub fn relay_ready(&self) -> (b: bool)
        ensures
            b == self.relay_ready_spec(),
    {
        self.csr_contract.is_some() && self.relayer_mnemonic.is_some()
    }

    /// Whether x402 payment requirements can be advertised.
    pub open spec fn x402_ready_spec(&self) -> bool {
        !is_blank_spec(self.payto_address@)
    }

    /// Whether x402 payment requirements can be advertised.
    pub fn x402_ready(&self) -> (b: bool)
        ensures
            b == self.x402_ready_spec(),
            b <==> exists|i: int|
                0 <= i < self.payto_address@.len() && !is_ws(#[trigger] self.payto_address@[i]),
    {
        proof {
            law_x402_ready_reads_only_payto(*self, *self);
        }
        !is_blank(self.payto_address.as_str())
    }

    /// The warnings for a run under this configuration, in the order they are logged.
    pub open spec fn run_warnings(&self) -> Seq<RunWarning> {
        let a = if self.dev_bypass_payment {
            seq![RunWarning::DevBypassEnabled]
        } else {
            Seq::empty()
        };
        let b = if !self.x402_ready_spec() && !self.dev_bypass_payment {
            seq![RunWarning::PaytoMissing]
        } else {
            Seq::empty()
        };
        let c = if !self.relay_ready_spec() {
            seq![RunWarning::RelayNotConfigured]
        } else {
            Seq::empty()
        };
        a + b + c
    }

    /// Checks the configuration for production-like runs; every configuration runs,
    /// and the result lists what to warn about.
    pub fn validate_for_run(&self) -> (w: Vec<RunWarning>)
        ensures
            w@ == self.run_warnings(),
            w@.contains(RunWarning::RelayNotConfigured) <==> (self.csr_contract is None
                || self.relayer_mnemonic is None),
            w@.contains(RunWarning::DevBypassEnabled) <==> self.dev_bypass_payment,
            w@.contains(RunWarning::PaytoMissing) <==> (!self.dev_bypass_payment && forall|i: int|
                0 <= i < self.payto_address@.len() ==> is_ws(#[trigger] self.payto_address@[i])),
    {
        proof {
            law_run_warnings(*self);
        }
        let mut w: Vec<RunWarning> = Vec::new();
        if self.dev_bypass_payment {
            w.push(RunWarning::DevBypassEnabled);
        }
        if !self.x402_ready() && !self.dev_bypass_payment {
            w.push(RunWarning::PaytoMissing);
        }
        if !self.relay_ready() {
            w.push(RunWarning::RelayNotConfigured);
        }
        assert(w@ =~= self.run_warnings());
        w
    }

    /// Socket address string for binding: `host:port`.
    pub fn bind_addr(&self) -> (r: String)
        ensures
            r@ == self.host@ + ":"@ + decimal(self.port as nat),
    {
        let mut out = concat_text(self.host.as_str(), ":");
        push_decimal(&mut out, self.port as u64);
        out
    }

    /// Public base URL hint for x402 resource descriptors: `AGENT_GATEWAY_PUBLIC_URL`
    /// when set (`public_url`), else `http://localhost:<port>`.
    pub fn public_base_url(&self, public_url: &Option<String>) -> (r: String)
        ensures
            r@ == (match public_url {
                Some(u) => u@,
                None => "http://localhost:"@ + decimal(self.port as nat),
            }),
    {
        match public_url {
            Some(u) => u.clone(),
            None => {
                let mut out = "http://localhost:".to_owned();
                push_decimal(&mut out, self.port as u64);
                out
            },
        }
    }

    /// USDC contract address used in payment requirements.
    pub fn x402_asset_address(&self) -> (r: &str)
        ensures
            r@ == self.x402_asset_contract@,
    {
        self.x402_asset_contract.as_str()
    }

    /// The relay helper script that the configuration names, if any.
    pub fn relay_script_override(&self) -> (r: Option<String>)
        ensures
            r matches Some(s) ==> s == self.relay_script,
            r is None <==> self.relay_script@.len() == 0,
    {
        if self.relay_script.as_str().is_empty() {
            None
        } else {
            Some(self.relay_script.clone())
        }
    }
}

/// The port is taken from `PORT`, else `AGENT_GATEWAY_PORT`, else `8081`; the
/// settings are refused exactly when `AGENT_GATEWAY_PORT` is set to no u16, or
/// `PORT` is set to no u16.
pub proof fn law_port_selection(vars: EnvSnapshot)
    ensures
        vars.port is Some ==> port_text(vars) == vars.port->0@,
        vars.port is None && vars.agent_gateway_port is Some ==> port_text(vars)
            == vars.agent_gateway_port->0@,
        vars.port is None && vars.agent_gateway_port is None ==> parse_u16_spec(port_text(vars))
            == Some(8081u16),
        port_refused(vars) <==> ((vars.agent_gateway_port is Some && parse_u16_spec(
            vars.agent_gateway_port->0@,
        ) is None) || (vars.port is Some && parse_u16_spec(vars.port->0@) is None)),
{
    if vars.port is None && vars.agent_gateway_port is None {
        reveal_strlit("8081");
        assert(decimal(8081) =~= "8081"@) by {
            reveal_with_fuel(decimal, 5);
        }
        law_port_round_trip(8081u16);
    }
}

/// Payment requirements can be advertised exactly when the pay-to address holds
/// a character other than whitespace; no other setting has a say.
pub proof fn law_x402_ready_reads_only_payto(cfg: GatewayConfig, other: GatewayConfig)
    requires
        other.payto_address == cfg.payto_address,
    ensures
        cfg.x402_ready_spec() <==> exists|i: int|
            0 <= i < cfg.payto_address@.len() && !is_ws(#[trigger] cfg.payto_address@[i]),
        other.x402_ready_spec() == cfg.x402_ready_spec(),
{
    lemma_blank_iff_all_ws(cfg.payto_address@);
}

/// The run warns of the dev bypass exactly when it is on, of a missing pay-to
/// address exactly when the address is all whitespace and the bypass is off, and
/// of the relay exactly when the contract or the mnemonic is missing, whatever
/// the payment settings; the warnings come in that order.
pub proof fn law_run_warnings(cfg: GatewayConfig)
    ensures
        cfg.run_warnings().contains(RunWarning::DevBypassEnabled) <==> cfg.dev_bypass_payment,
        cfg.run_warnings().contains(RunWarning::PaytoMissing) <==> (!cfg.dev_bypass_payment
            && forall|i: int|
            0 <= i < cfg.payto_address@.len() ==> is_ws(#[trigger] cfg.payto_address@[i])),
        cfg.run_warnings().contains(RunWarning::RelayNotConfigured) <==> (cfg.csr_contract is None
            || cfg.relayer_mnemonic is None),
        cfg.run_warnings().len() <= 3,
        cfg.run_warnings().len() > 0 && cfg.dev_bypass_payment ==> cfg.run_warnings()[0]
            == RunWarning::DevBypassEnabled,
        cfg.run_warnings().len() > 0 && (cfg.csr_contract is None || cfg.relayer_mnemonic is None)
            ==> cfg.run_warnings().last() == RunWarning::RelayNotConfigured,
{
    lemma_blank_iff_all_ws(cfg.payto_address@);
    let w = cfg.run_warnings();
    let dev = cfg.dev_bypass_payment;
    let pay = !cfg.x402_ready_spec() && !cfg.dev_bypass_payment;
    let relay = !cfg.relay_ready_spec();
    assert(w.contains(RunWarning::DevBypassEnabled) <==> dev) by {
        if dev {
            assert(w[0] == RunWarning::DevBypassEnabled);
        }
    }
    assert(w.contains(RunWarning::PaytoMissing) <==> pay) by {
        if pay {
            let k: int = if dev { 1 } else { 0 };
            assert(w[k] == RunWarning::PaytoMissing);
        }
    }
    assert(w.contains(RunWarning::RelayNotConfigured) <==> relay) by {
        if relay {
            assert(w[w.len() - 1] == RunWarning::RelayNotConfigured);
        }
    }
}

/// The text of a price in atomic units: `atomic` in decimal, else `10000`.
pub open spec fn atomic_price_text_spec(atomic: Option<u64>) -> Seq<char> {
    match atomic {
        Some(n) => decimal(n as nat),
        None => "10000"@,
    }
}

/// The price in USDC atomic units as text, from the whole number of atomic units
/// that the configured dollar price rounds to (`None` where the price does not
/// read as a number): that number in decimal, else `10000`.
pub fn atomic_price_text(atomic: Option<u64>) -> (r: String)
    ensures
        r@ == atomic_price_text_spec(atomic),
{
    match atomic {
        Some(n) => decimal_text(n),
        None => "10000".to_owned(),
    }
}

} // verus!
