//! The gateway's HTTP answers: health, capabilities, stored measurements, error
//! bodies, and the decisions of `POST /v1/measurements` as a state machine whose
//! outside work (payment calls, the relay) the server performs.

use vstd::prelude::*;
use crate::config::GatewayConfig;
use crate::measurement::{validation, ChainData, DroneMeasurement, MeasurementError};
use crate::relay::{RelayApi, RelayOutcome, RelayStatus};
use crate::store::{MeasurementStore, StoredMeasurement};
use crate::text::{decimal, decimal_text};
use crate::x402::{
    payment_header_spec, payment_header_value, PaymentError, PaymentHeaders,
    PaymentSession,
};

verus! {

/// The deployment phase the gateway reports.
pub const PHASE: &'static str = "g1";

/// Body of `GET /health`.
#[derive(Debug, PartialEq, Eq)]
pub struct HealthResponse {
    pub status: String,
    pub phase: String,
    pub relay_ready: bool,
    pub x402_ready: bool,
    pub stored_measurements: usize,
}

/// The health report.
pub fn health(config: &GatewayConfig, store: &MeasurementStore) -> (h: HealthResponse)
    ensures
        h.status@ == "ok"@,
        h.phase@ == PHASE@,
        h.relay_ready == config.relay_ready_spec(),
        h.x402_ready == config.x402_ready_spec(),
        h.stored_measurements == store@.len(),
{
    HealthResponse {
        status: "ok".to_owned(),
        phase: PHASE.to_owned(),
        relay_ready: config.relay_ready(),
        x402_ready: config.x402_ready(),
        stored_measurements: store.len(),
    }
}

/// One endpoint in the capabilities listing.
#[derive(Debug, PartialEq, Eq)]
pub struct EndpointInfo {
    pub method: String,
    pub path: String,
    pub price: String,
    pub description: String,
}

/// Payment part of the capabilities listing.
#[derive(Debug, PartialEq, Eq)]
pub struct PaymentInfo {
    pub protocol: String,
    pub asset: String,
    pub network: String,
    pub price_usdc: String,
    pub facilitator: String,
    pub ready: bool,
}

/// Relay part of the capabilities listing.
#[derive(Debug, PartialEq, Eq)]
pub struct RelayInfo {
    pub chain_id: String,
    pub rpc: String,
    pub contract: Option<String>,
    pub ready: bool,
}

/// Body of `GET /v1/capabilities`.
#[derive(Debug, PartialEq, Eq)]
pub struct CapabilitiesResponse {
    pub phase: String,
    pub endpoints: Vec<EndpointInfo>,
    pub payment: PaymentInfo,
    pub relay: RelayInfo,
    pub sample_payload: DroneMeasurement,
}

fn endpoint(method: &str, path: &str, price: &str, description: &str) -> (e: EndpointInfo)
    ensures
        e.method@ == method@,
        e.path@ == path@,
        e.price@ == price@,
        e.description@ == description@,
{
    EndpointInfo {
        method: method.to_owned(),
        path: path.to_owned(),
        price: price.to_owned(),
        description: description.to_owned(),
    }
}

/// Service discovery for agents: endpoints, pricing, relay target and a sample payload.
pub fn capabilities(config: &GatewayConfig) -> (c: CapabilitiesResponse)
    ensures
        c.phase@ == PHASE@,
        c.endpoints@.len() == 3,
        c.endpoints@[0].method@ == "GET"@,
        c.endpoints@[0].path@ == "/v1/capabilities"@,
        c.endpoints@[0].price@ == "free"@,
        c.endpoints@[0].description@ == "Service discovery for agents"@,
        c.endpoints@[1].method@ == "POST"@,
        c.endpoints@[1].path@ == "/v1/measurements"@,
        c.endpoints@[1].price@ == "x402 USDC"@,
        c.endpoints@[1].description@
            == "Submit drone reading; relays to citizen-science-registry on Osmosis"@,
        c.endpoints@[2].method@ == "GET"@,
        c.endpoints@[2].path@ == "/v1/measurements/{id}"@,
        c.endpoints@[2].price@ == "free"@,
        c.endpoints@[2].description@ == "Fetch mirrored measurement and relay status"@,
        c.payment.protocol@ == "x402"@,
        c.payment.asset == config.x402_asset,
        c.payment.network == config.x402_network,
        c.payment.price_usdc == config.price_usdc,
        c.payment.facilitator == config.facilitator_url,
        c.payment.ready == config.x402_ready_spec(),
        c.relay.chain_id == config.osmosis_chain_id,
        c.relay.rpc == config.osmosis_rpc,
        c.relay.contract == config.csr_contract,
        c.relay.ready == config.relay_ready_spec(),
        c.sample_payload.lat@ == "28.70"@,
        c.sample_payload.lon@ == "77.22"@,
        c.sample_payload.turbidity@ == "14.2"@,
        c.sample_payload.image_hash@ == "sha256:demo-yamuna-frame-001"@,
        c.sample_payload.flight_id@ == "yamuna-drone-001"@,
        c.sample_payload.sensor_id == Some(1u64),
        c.sample_payload.unit matches Some(u) && u@ == "NTU"@,
        c.sample_payload.site matches Some(s) && s@ == "Yamuna Wazirabad, Delhi NCR, India"@,
{
    let mut endpoints: Vec<EndpointInfo> = Vec::new();
    endpoints.push(endpoint("GET", "/v1/capabilities", "free", "Service discovery for agents"));
    endpoints.push(
        endpoint(
            "POST",
            "/v1/measurements",
            "x402 USDC",
            "Submit drone reading; relays to citizen-science-registry on Osmosis",
        ),
    );
    endpoints.push(
        endpoint(
            "GET",
            "/v1/measurements/{id}",
            "free",
            "Fetch mirrored measurement and relay status",
        ),
    );
    CapabilitiesResponse {
        phase: PHASE.to_owned(),
        endpoints,
        payment: PaymentInfo {
            protocol: "x402".to_owned(),
            asset: config.x402_asset.clone(),
            network: config.x402_network.clone(),
            price_usdc: config.price_usdc.clone(),
            facilitator: config.facilitator_url.clone(),
            ready: config.x402_ready(),
        },
        relay: RelayInfo {
            chain_id: config.osmosis_chain_id.clone(),
            rpc: config.osmosis_rpc.clone(),
            contract: crate::measurement::clone_opt_text(&config.csr_contract),
            ready: config.relay_ready(),
        },
        sample_payload: DroneMeasurement {
            lat: "28.70".to_owned(),
            lon: "77.22".to_owned(),
            turbidity: "14.2".to_owned(),
            image_hash: "sha256:demo-yamuna-frame-001".to_owned(),
            flight_id: "yamuna-drone-001".to_owned(),
            sensor_id: Some(1),
            unit: Some("NTU".to_owned()),
            site: Some("Yamuna Wazirabad, Delhi NCR, India".to_owned()),
        },
    }
}

/// JSON error body `{"error", "details"}`.
#[derive(Debug, PartialEq, Eq)]
pub struct ErrorBody {
    pub error: String,
    pub details: Option<String>,
}

/// An error answer: HTTP status and body.
#[derive(Debug, PartialEq, Eq)]
pub struct ErrorReply {
    pub status: u16,
    pub body: ErrorBody,
}

/// The answer to a refused payment: 402 with `payment_required` for a missing
/// header, `payment_invalid` with the facilitator's reason otherwise.
pub open spec fn payment_error_spec(err: PaymentError, r: ErrorReply) -> bool {
    match err {
        PaymentError::MissingHeader => reply_is(
            r,
            402,
            "payment_required"@,
            Some(err.message_spec()),
        ),
        PaymentError::VerifyFailed(d) => reply_is(r, 402, "payment_invalid"@, Some(d@)),
        PaymentError::SettleFailed(d) => reply_is(r, 402, "payment_invalid"@, Some(d@)),
    }
}

/// The text of optional details.
pub open spec fn details_text(d: Option<String>) -> Option<Seq<char>> {
    match d {
        Some(t) => Some(t@),
        None => None,
    }
}

/// Whether `r` answers `status` with error `error` and details `details`.
pub open spec fn reply_is(r: ErrorReply, status: u16, error: Seq<char>, details: Option<Seq<char>>) -> bool {
    &&& r.status == status
    &&& r.body.error@ == error
    &&& details_text(r.body.details) == details
}

/// Whether `a` refuses with `status`, error `error` and details `details`.
pub open spec fn refuses(a: PostAction, status: u16, error: Seq<char>, details: Option<Seq<char>>) -> bool {
    match a {
        PostAction::Refuse(reply) => reply_is(reply, status, error, details),
        _ => false,
    }
}

/// Whether `a` refuses a payment as `payment_error` answers `err`.
pub open spec fn refuses_payment(a: PostAction, err: PaymentError) -> bool {
    match a {
        PostAction::Refuse(reply) => payment_error_spec(err, reply),
        _ => false,
    }
}

/// Whether the step relays under a fresh id, with `session` (if any) kept to settle.
pub open spec fn relays(r: (PostState, PostAction), session: Option<PaymentSession>) -> bool {
    match (r.0, r.1) {
        (PostState::AwaitingRelay { id, session: kept }, PostAction::Relay { id: relay_id }) => {
            &&& id == relay_id
            &&& uuid_v4_form(id@)
            &&& kept == session
        },
        _ => false,
    }
}

/// The answer to a refused payment.
pub fn payment_error(err: PaymentError) -> (r: ErrorReply)
    ensures
        payment_error_spec(err, r),
{
    match err {
        PaymentError::MissingHeader => {
            let details = err.message();
            ErrorReply {
                status: 402,
                body: ErrorBody { error: "payment_required".to_owned(), details: Some(details) },
            }
        },
        PaymentError::VerifyFailed(details) => ErrorReply {
            status: 402,
            body: ErrorBody { error: "payment_invalid".to_owned(), details: Some(details) },
        },
        PaymentError::SettleFailed(details) => ErrorReply {
            status: 402,
            body: ErrorBody { error: "payment_invalid".to_owned(), details: Some(details) },
        },
    }
}

/// The answer to an invalid measurement: `status` with `invalid_measurement` and
/// the error's text.
pub fn measurement_error(status: u16, err: MeasurementError) -> (r: ErrorReply)
    ensures
        reply_is(r, status, "invalid_measurement"@, Some(err.message_spec())),
{
    ErrorReply {
        status,
        body: ErrorBody { error: "invalid_measurement".to_owned(), details: Some(err.message()) },
    }
}

/// `GET /v1/measurements/{id}`: the stored record, else 404 `not_found`.
pub fn get_measurement(store: &MeasurementStore, id: &str) -> (r: Result<
    StoredMeasurement,
    ErrorReply,
>)
    ensures
        match r {
            Ok(record) => store@.contains_key(id@) && record == store@[id@],
            Err(e) => !store@.contains_key(id@) && reply_is(e, 404, "not_found"@, None),
        },
{
    match store.get(id) {
        Some(record) => Ok(record),
        None => Err(
            ErrorReply {
                status: 404,
                body: ErrorBody { error: "not_found".to_owned(), details: None },
            },
        ),
    }
}

/// Whether `s` is a hyphenated lower-case version-4 UUID:
/// `xxxxxxxx-xxxx-4xxx-yxxx-xxxxxxxxxxxx` with `y` one of `8`, `9`, `a`, `b`.
pub open spec fn uuid_v4_form(s: Seq<char>) -> bool {
    &&& s.len() == 36
    &&& forall|i: int|
        0 <= i < 36 ==> if i == 8 || i == 13 || i == 18 || i == 23 {
            #[trigger] s[i] == '-'
        } else {
            ('0' <= s[i] && s[i] <= '9') || ('a' <= s[i] && s[i] <= 'f')
        }
    &&& s[14] == '4'
    &&& (s[19] == '8' || s[19] == '9' || s[19] == 'a' || s[19] == 'b')
}

/// `uuid::Uuid::new_v4()` rendered by its `Display` impl. Trusted: the text is a
/// version-4 UUID (version nibble 4, variant bits `10`) in hyphenated lower-case
/// hex; the random bits are left open. The call panics only where the operating
/// system's entropy source fails, which no precondition can rule out.
#[verifier::external_body]
fn new_uuid_v4() -> (r: String)
    ensures
        uuid_v4_form(r@),
{
    uuid::Uuid::new_v4().to_string()
}

/// A fresh measurement id.
pub fn new_measurement_id() -> (r: String)
    ensures
        uuid_v4_form(r@),
{
    new_uuid_v4()
}

/// `std::time::SystemTime`, carried through opaquely.
#[verifier::external_type_specification]
#[verifier::external_body]
pub struct ExSystemTime(std::time::SystemTime);

/// `SystemTime::now`. Trusted only to return: nothing is claimed of the time read.
#[verifier::external_body]
fn clock_now() -> (t: std::time::SystemTime) {
    std::time::SystemTime::now()
}

/// `SystemTime::duration_since(UNIX_EPOCH)`, `None` for a time before the epoch.
/// Trusted only to return: nothing is claimed of the duration.
#[verifier::external_body]
fn since_unix_epoch(t: &std::time::SystemTime) -> (d: Option<std::time::Duration>) {
    t.duration_since(std::time::UNIX_EPOCH).ok()
}

/// `Duration::as_secs`. Trusted only to return: the duration is opaque here, so
/// nothing is claimed of the number.
#[verifier::external_body]
fn whole_seconds(d: &std::time::Duration) -> (s: u64) {
    d.as_secs()
}

/// The clock in whole seconds since the Unix epoch (`None` before the epoch).
fn seconds_since_epoch() -> Option<u64> {
    let now = clock_now();
    match since_unix_epoch(&now) {
        Some(d) => Some(whole_seconds(&d)),
        None => None,
    }
}

/// The creation stamp of a record: seconds since the Unix epoch in decimal, `0`
/// for a clock before the epoch.
pub fn timestamp_text(seconds: Option<u64>) -> (r: String)
    ensures
        r@ == decimal(
            match seconds {
                Some(s) => s as nat,
                None => 0,
            },
        ),
{
    match seconds {
        Some(s) => decimal_text(s),
        None => decimal_text(0),
    }
}

/// The current creation stamp: some number of seconds in decimal.
pub fn chrono_now_rfc3339() -> (r: String)
    ensures
        exists|s: u64| r@ == decimal(s as nat),
{
    let now = seconds_since_epoch();
    let r = timestamp_text(now);
    proof {
        let s: u64 = match now {
            Some(s) => s,
            None => 0,
        };
        assert(r@ == decimal(s as nat));
    }
    r
}

/// Body of an accepted measurement: `{"id", "relay", "chain_data", "payment"}`.
#[derive(Debug, PartialEq, Eq)]
pub struct MeasurementAccepted {
    pub id: String,
    pub relay: RelayApi,
    pub chain_data: ChainData,
    /// The facilitator's settlement answer as JSON text, for paid requests.
    pub payment: Option<String>,
}

/// Where a `POST /v1/measurements` request stands.
#[derive(Debug)]
pub enum PostState {
    /// Nothing decided yet.
    Start,
    /// Waiting for the facilitator to verify the payment.
    AwaitingVerify,
    /// Waiting for the relay of the measurement under `id`.
    AwaitingRelay { id: String, session: Option<PaymentSession> },
    /// Waiting for the facilitator to settle the payment of a relayed measurement.
    AwaitingSettle { id: String, relay: RelayOutcome },
    /// The request is answered.
    Finished,
}

/// What the server reports back to the state machine.
#[derive(Debug)]
pub enum PostEvent {
    /// The request arrived.
    Begin,
    /// The facilitator's verify answer.
    Verified(Result<PaymentSession, PaymentError>),
    /// The relay's outcome, or the text of the error that stopped it.
    Relayed(Result<RelayOutcome, String>),
    /// The facilitator's settle answer (its JSON text).
    Settled(Result<String, PaymentError>),
}

/// What the server is to do next.
#[derive(Debug)]
pub enum PostAction {
    /// Answer with this error.
    Refuse(ErrorReply),
    /// Answer 402 with the payment requirements and the `PAYMENT-REQUIRED` header.
    RequirePayment,
    /// Verify the payment header with the facilitator.
    VerifyPayment { header: String },
    /// Relay the measurement under `id`.
    Relay { id: String },
    /// Settle the verified payment with the facilitator.
    Settle { session: PaymentSession },
    /// Store the measurement and answer 200.
    Accept { id: String, relay: RelayOutcome, payment: Option<String> },
}

/// Whether `event` is the one the server reports in `state`.
pub open spec fn event_fits(state: PostState, event: PostEvent) -> bool {
    match state {
        PostState::Start => event is Begin,
        PostState::AwaitingVerify => event is Verified,
        PostState::AwaitingRelay { .. } => event is Relayed,
        PostState::AwaitingSettle { .. } => event is Settled,
        PostState::Finished => false,
    }
}

/// One decision of `POST /v1/measurements`.
pub fn post_step(
    config: &GatewayConfig,
    body: &DroneMeasurement,
    headers: &PaymentHeaders,
    state: PostState,
    event: PostEvent,
) -> (r: (PostState, PostAction))
    requires
        event_fits(state, event),
    ensures
        (r.1 is Refuse || r.1 is RequirePayment || r.1 is Accept) <==> r.0 is Finished,
        r.1 is VerifyPayment ==> r.0 is AwaitingVerify,
        r.1 is Relay ==> r.0 is AwaitingRelay,
        r.1 is Settle ==> r.0 is AwaitingSettle,
        state is Start ==> match validation(*body) {
            Err(e) => refuses(r.1, 400, "invalid_measurement"@, Some(e.message_spec())),
            Ok(()) => if config.dev_bypass_payment {
                relays(r, None)
            } else {
                match payment_header_spec(*headers) {
                    None => r.1 is RequirePayment,
                    Some(h) => match r.1 {
                        PostAction::VerifyPayment { header } => header@ == h,
                        _ => false,
                    },
                }
            },
        },
        state is AwaitingVerify ==> match event {
            PostEvent::Verified(Err(e)) => refuses_payment(r.1, e),
            PostEvent::Verified(Ok(s)) => relays(r, Some(s)),
            _ => false,
        },
        state matches PostState::AwaitingRelay { id, session } ==> match event {
            PostEvent::Relayed(Err(e)) => refuses(r.1, 502, "relay_error"@, Some(e@)),
            PostEvent::Relayed(Ok(o)) => if o.status == RelayStatus::Failed {
                refuses(r.1, 502, "relay_failed"@, Some(o.message@))
            } else {
                match session {
                    Some(s) => r.1 == PostAction::Settle { session: s } && r.0
                        == PostState::AwaitingSettle { id, relay: o },
                    None => r.1 == PostAction::Accept { id, relay: o, payment: None },
                }
            },
            _ => false,
        },
        state matches PostState::AwaitingSettle { id, relay } ==> match event {
            PostEvent::Settled(Err(e)) => refuses_payment(r.1, e),
            PostEvent::Settled(Ok(p)) => r.1 == PostAction::Accept {
                id,
                relay,
                payment: Some(p),
            },
            _ => false,
        },
{
    match (state, event) {
        (PostState::Start, _) => {
            match body.validate() {
                Err(e) => (PostState::Finished, PostAction::Refuse(measurement_error(400, e))),
                Ok(()) => {
                    if config.dev_bypass_payment {
                        start_relay(None)
                    } else {
                        match payment_header_value(headers) {
                            None => (PostState::Finished, PostAction::RequirePayment),
                            Some(header) => (
                                PostState::AwaitingVerify,
                                PostAction::VerifyPayment { header },
                            ),
                        }
                    }
                },
            }
        },
        (PostState::AwaitingVerify, PostEvent::Verified(verdict)) => match verdict {
            Err(e) => (PostState::Finished, PostAction::Refuse(payment_error(e))),
            Ok(s) => start_relay(Some(s)),
        },
        (PostState::AwaitingRelay { id, session }, PostEvent::Relayed(result)) => match result {
            Err(e) => (
                PostState::Finished,
                PostAction::Refuse(
                    ErrorReply {
                        status: 502,
                        body: ErrorBody { error: "relay_error".to_owned(), details: Some(e) },
                    },
                ),
            ),
            Ok(o) => {
                if o.status == RelayStatus::Failed {
                    (
                        PostState::Finished,
                        PostAction::Refuse(
                            ErrorReply {
                                status: 502,
                                body: ErrorBody {
                                    error: "relay_failed".to_owned(),
                                    details: Some(o.message),
                                },
                            },
                        ),
                    )
                } else {
                    match session {
                        Some(s) => (
                            PostState::AwaitingSettle { id, relay: o },
                            PostAction::Settle { session: s },
                        ),
                        None => (
                            PostState::Finished,
                            PostAction::Accept { id, relay: o, payment: None },
                        ),
                    }
                }
            },
        },
        (PostState::AwaitingSettle { id, relay }, PostEvent::Settled(result)) => match result {
            Err(e) => (PostState::Finished, PostAction::Refuse(payment_error(e))),
            Ok(p) => (PostState::Finished, PostAction::Accept { id, relay, payment: Some(p) }),
        },
        _ => vstd::pervasive::unreached(),
    }
}

/// Moves on to relaying under a fresh id, keeping `session` to settle afterwards.
fn start_relay(session: Option<PaymentSession>) -> (r: (PostState, PostAction))
    ensures
        relays(r, session),
{
    let id = new_measurement_id();
    let relay_id = id.clone();
    (PostState::AwaitingRelay { id, session }, PostAction::Relay { id: relay_id })
}

/// Stores an accepted measurement under `id` and builds the 200 answer.
pub fn accept_measurement(
    store: &mut MeasurementStore,
    id: String,
    body: &DroneMeasurement,
    relay: RelayOutcome,
    payment: Option<String>,
) -> (a: MeasurementAccepted)
    ensures
        final(store)@.dom() == old(store)@.dom().insert(id@),
        final(store)@.dom().finite(),
        final(store)@.len() == old(store)@.len() + (if old(store)@.contains_key(id@) {
            0int
        } else {
            1int
        }),
        final(store)@[id@].id == id,
        final(store)@[id@].measurement == *body,
        final(store)@[id@].relay == relay,
        exists|s: u64| final(store)@[id@].created_at@ == decimal(s as nat),
        forall|k: Seq<char>| k != id@ && #[trigger] old(store)@.contains_key(k) ==> final(store)@[k]
            == old(store)@[k],
        a.id == id,
        a.relay.status@ == crate::relay::status_name(relay.status),
        a.relay.tx_hash == relay.tx_hash,
        a.relay.message == relay.message,
        a.chain_data.source@ == "drone_agent"@,
        a.chain_data.flight_id == body.flight_id,
        a.chain_data.lat == body.lat,
        a.chain_data.lon == body.lon,
        a.chain_data.value == body.turbidity,
        a.chain_data.unit@ == body.unit_or_default(),
        a.chain_data.image_hash == body.image_hash,
        a.chain_data.site == body.site,
        a.payment == payment,
{
    let created_at = chrono_now_rfc3339();
    let api = relay.to_api();
    let chain_data = body.to_chain_data();
    let record = StoredMeasurement {
        id: id.clone(),
        measurement: body.clone(),
        relay,
        created_at,
    };
    store.insert(record);
    MeasurementAccepted { id, relay: api, chain_data, payment }
}

} // verus!
