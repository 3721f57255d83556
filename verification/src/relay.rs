//! Relay of measurements to the Osmosis citizen-science registry: what to send,
//! and how the helper script's answer becomes a relay outcome.

use vstd::prelude::*;
use crate::config::{text_or, GatewayConfig};
use crate::measurement::{clone_opt_text, ChainData, DroneMeasurement};
use crate::text::{push_signed_decimal, push_text, signed_decimal, trim, trim_text};

verus! {

/// Relay lifecycle.
#[derive(Debug, Clone, Copy, PartialEq, Eq, Structural)]
pub enum RelayStatus {
    Queued,
    Submitted,
    NotConfigured,
    Failed,
}

/// Result of a relay attempt to CosmWasm.
#[derive(Debug, PartialEq, Eq)]
pub struct RelayOutcome {
    pub status: RelayStatus,
    pub tx_hash: Option<String>,
    pub message: String,
}

impl Clone for RelayOutcome {
    fn clone(&self) -> (r: Self)
        ensures
            r == *self,
    {
        RelayOutcome {
            status: self.status,
            tx_hash: clone_opt_text(&self.tx_hash),
            message: self.message.clone(),
        }
    }
}

/// The CosmWasm execute message `{"submit_data": {"sensor_id", "data"}}`.
#[derive(Debug, PartialEq, Eq)]
pub struct SubmitDataMsg {
    pub sensor_id: u64,
    pub data: ChainData,
}

/// Builds the CosmWasm execute message for `submit_data`.
pub fn build_submit_data_msg(sensor_id: u64, data: ChainData) -> (msg: SubmitDataMsg)
    ensures
        msg.sensor_id == sensor_id,
        msg.data == data,
{
    SubmitDataMsg { sensor_id, data }
}

/// What the relay helper script is handed on its standard input.
#[derive(Debug, PartialEq, Eq)]
pub struct RelayJob {
    pub rpc: String,
    pub denom: String,
    pub contract: String,
    pub mnemonic: String,
    pub sensor_id: u64,
    pub data: ChainData,
}

/// What to do with a validated measurement.
#[derive(Debug)]
pub enum RelayPlan {
    /// Relay is not configured: the outcome is final.
    Skip(RelayOutcome),
    /// Run the helper script with this job.
    Run(RelayJob),
}

/// The JSON line the relay helper script prints.
#[derive(Debug, PartialEq, Eq)]
pub struct ScriptReply {
    pub ok: bool,
    pub tx_hash: Option<String>,
    pub error: Option<String>,
}

/// The text of a relay that is not configured.
pub open spec fn not_configured_message(measurement_id: Seq<char>) -> Seq<char> {
    "Measurement "@ + measurement_id
        + " validated; configure RELAYER_MNEMONIC and CSR_CONTRACT_ADDRESS for Osmosis relay"@
}

/// Decides how a measurement is relayed under `config`.
pub fn plan_relay(config: &GatewayConfig, measurement: &DroneMeasurement, measurement_id: &str) -> (r:
    RelayPlan)
    ensures
        !config.relay_ready_spec() <==> r is Skip,
        r matches RelayPlan::Skip(o) ==> {
            &&& o.status == RelayStatus::NotConfigured
            &&& o.tx_hash is None
            &&& o.message@ == not_configured_message(measurement_id@)
        },
        r matches RelayPlan::Run(job) ==> {
            &&& job.rpc == config.osmosis_rpc
            &&& job.denom == config.osmosis_denom
            &&& Some(job.contract) == config.csr_contract
            &&& Some(job.mnemonic) == config.relayer_mnemonic
            &&& job.sensor_id == (match measurement.sensor_id {
                Some(id) => id,
                None => 1,
            })
            &&& job.data.source@ == "drone_agent"@
            &&& job.data.flight_id == measurement.flight_id
            &&& job.data.lat == measurement.lat
            &&& job.data.lon == measurement.lon
            &&& job.data.value == measurement.turbidity
            &&& job.data.unit@ == measurement.unit_or_default()
            &&& job.data.image_hash == measurement.image_hash
            &&& job.data.site == measurement.site
        },
{
    match (&config.csr_contract, &config.relayer_mnemonic) {
        (Some(contract), Some(mnemonic)) => {
            let sensor_id = match measurement.sensor_id {
                Some(id) => id,
                None => 1,
            };
            RelayPlan::Run(
                RelayJob {
                    rpc: config.osmosis_rpc.clone(),
                    denom: config.osmosis_denom.clone(),
                    contract: contract.clone(),
                    mnemonic: mnemonic.clone(),
                    sensor_id,
                    data: measurement.to_chain_data(),
                },
            )
        },
        _ => {
            let mut message = "Measurement ".to_owned();
            push_text(&mut message, measurement_id);
            push_text(
                &mut message,
                " validated; configure RELAYER_MNEMONIC and CSR_CONTRACT_ADDRESS for Osmosis relay",
            );
            RelayPlan::Skip(
                RelayOutcome { status: RelayStatus::NotConfigured, tx_hash: None, message },
            )
        },
    }
}

/// The text of a relay whose script printed something unreadable.
pub open spec fn unreadable_output_message(exit_code: Option<i32>, stdout: Seq<char>) -> Seq<char> {
    "invalid relay output (exit "@ + signed_decimal(
        match exit_code {
            Some(c) => c as int,
            None => 1,
        },
    ) + "): "@ + trim(stdout)
}

/// The relay outcome from the script's reply (`None` where its standard output,
/// trimmed, is not a reply), its exit code and its standard output.
pub fn finish_relay(
    reply: Option<ScriptReply>,
    exit_code: Option<i32>,
    stdout: &str,
    measurement_id: &str,
) -> (o: RelayOutcome)
    ensures
        (match reply {
            Some(p) => if p.ok {
                &&& o.status == RelayStatus::Submitted
                &&& o.tx_hash == p.tx_hash
                &&& o.message@ == "submit_data broadcast for measurement "@ + measurement_id@
            } else {
                &&& o.status == RelayStatus::Failed
                &&& o.tx_hash is None
                &&& o.message@ == text_or(p.error, "relay script failed"@)
            },
            None => {
                &&& o.status == RelayStatus::Failed
                &&& o.tx_hash is None
                &&& o.message@ == unreadable_output_message(exit_code, stdout@)
            },
        }),
{
    match reply {
        Some(p) => {
            if p.ok {
                let mut message = "submit_data broadcast for measurement ".to_owned();
                push_text(&mut message, measurement_id);
                RelayOutcome { status: RelayStatus::Submitted, tx_hash: p.tx_hash, message }
            } else {
                let message = match p.error {
                    Some(e) => e,
                    None => "relay script failed".to_owned(),
                };
                RelayOutcome { status: RelayStatus::Failed, tx_hash: None, message }
            }
        },
        None => {
            let mut message = "invalid relay output (exit ".to_owned();
            let code: i32 = match exit_code {
                Some(c) => c,
                None => 1,
            };
            push_signed_decimal(&mut message, code);
            push_text(&mut message, "): ");
            let t = trim_text(stdout);
            push_text(&mut message, t.as_str());
            RelayOutcome { status: RelayStatus::Failed, tx_hash: None, message }
        },
    }
}

/// Relay status as shown in JSON APIs.
pub open spec fn status_name(s: RelayStatus) -> Seq<char> {
    match s {
        RelayStatus::Queued => "queued"@,
        RelayStatus::Submitted => "submitted"@,
        RelayStatus::NotConfigured => "not_configured"@,
        RelayStatus::Failed => "failed"@,
    }
}

/// The relay outcome as shown in JSON APIs (`{"status", "txHash", "message"}`).
#[derive(Debug, PartialEq, Eq)]
pub struct RelayApi {
    pub status: String,
    pub tx_hash: Option<String>,
    pub message: String,
}

impl RelayOutcome {
    /// The outcome as shown in JSON APIs.
    pub fn to_api(&self) -> (a: RelayApi)
        ensures
            a.status@ == status_name(self.status),
            a.tx_hash == self.tx_hash,
            a.message == self.message,
    {
        let status = match self.status {
            RelayStatus::Queued => "queued".to_owned(),
            RelayStatus::Submitted => "submitted".to_owned(),
            RelayStatus::NotConfigured => "not_configured".to_owned(),
            RelayStatus::Failed => "failed".to_owned(),
        };
        RelayApi { status, tx_hash: clone_opt_text(&self.tx_hash), message: self.message.clone() }
    }
}

} // verus!
