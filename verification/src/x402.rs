//! x402 payments: the requirements a client must pay against, the payment
//! header it sends, and how the facilitator's verify and settle answers decide.

use vstd::prelude::*;
use vstd::string::StringSliceAdditionalSpecFns;
use base64::Engine;
use crate::config::{atomic_price_text, atomic_price_text_spec, text_or, GatewayConfig};
use crate::text::{decimal, push_char, push_decimal, push_text, strip_end, strip_end_text};
use vstd::utf8::encode_utf8;

verus! {

/// Payment header names accepted by x402 clients.
pub const HEADER_PAYMENT_SIGNATURE: &'static str = "payment-signature";

pub const HEADER_PAYMENT_LEGACY: &'static str = "x-payment";

pub const HEADER_PAYMENT_REQUIRED: &'static str = "payment-required";

pub const HEADER_PAYMENT_RESPONSE: &'static str = "payment-response";

/// The character of base64 digit `v` in the standard alphabet (RFC 4648).
pub open spec fn b64_digit(v: int) -> char {
    if v < 26 {
        (65 + v) as char
    } else if v < 52 {
        (97 + v - 26) as char
    } else if v < 62 {
        (48 + v - 52) as char
    } else if v == 62 {
        '+'
    } else {
        '/'
    }
}

/// Standard base64 with `=` padding (RFC 4648, section 4).
pub open spec fn base64_standard(b: Seq<u8>) -> Seq<char>
    decreases b.len(),
{
    if b.len() == 0 {
        Seq::empty()
    } else if b.len() == 1 {
        seq![b64_digit(b[0] as int / 4), b64_digit((b[0] as int % 4) * 16), '=', '=']
    } else if b.len() == 2 {
        seq![
            b64_digit(b[0] as int / 4),
            b64_digit((b[0] as int % 4) * 16 + b[1] as int / 16),
            b64_digit((b[1] as int % 16) * 4),
            '=',
        ]
    } else {
        seq![
            b64_digit(b[0] as int / 4),
            b64_digit((b[0] as int % 4) * 16 + b[1] as int / 16),
            b64_digit((b[1] as int % 16) * 4 + b[2] as int / 64),
            b64_digit(b[2] as int % 64),
        ] + base64_standard(b.skip(3))
    }
}

/// `base64::engine::general_purpose::STANDARD.encode` (`Engine::encode`): the
/// standard alphabet with `=` padding. Trusted: the result is the RFC 4648 base64
/// text of `bytes`. The call panics when the length of its output overflows
/// `usize`; inputs up to half of `usize::MAX` bytes stay clear of that.
#[verifier::external_body]
fn base64_encode(bytes: &[u8]) -> (r: String)
    requires
        bytes@.len() <= usize::MAX / 2,
    ensures
        r@ == base64_standard(bytes@),
{
    base64::engine::general_purpose::STANDARD.encode(bytes)
}

/// Minimal payment requirements returned on HTTP 402.
#[derive(Debug, PartialEq, Eq)]
pub struct PaymentRequiredBody {
    pub error: String,
    pub message: String,
    pub price: String,
    pub asset: String,
    pub network: String,
    pub payto: String,
    pub facilitator: String,
    pub resource: String,
}

/// v1 payment requirements for facilitator calls.
#[derive(Debug, PartialEq, Eq)]
pub struct PaymentRequirements {
    pub scheme: String,
    pub network: String,
    pub max_amount_required: String,
    pub pay_to: String,
    pub asset: String,
    pub resource: String,
    pub max_timeout_seconds: u64,
}

impl Clone for PaymentRequirements {
    fn clone(&self) -> (r: Self)
        ensures
            r == *self,
    {
        PaymentRequirements {
            scheme: self.scheme.clone(),
            network: self.network.clone(),
            max_amount_required: self.max_amount_required.clone(),
            pay_to: self.pay_to.clone(),
            asset: self.asset.clone(),
            resource: self.resource.clone(),
            max_timeout_seconds: self.max_timeout_seconds,
        }
    }
}

/// Facilitator verify/settle context kept between verify and settle calls.
#[derive(Debug, PartialEq, Eq)]
pub struct PaymentSession {
    pub payment_header: String,
    pub requirements: PaymentRequirements,
}

impl Clone for PaymentSession {
    fn clone(&self) -> (r: Self)
        ensures
            r == *self,
    {
        PaymentSession {
            payment_header: self.payment_header.clone(),
            requirements: self.requirements.clone(),
        }
    }
}

/// x402 payment failures surfaced to HTTP handlers.
#[derive(Debug, PartialEq, Eq)]
pub enum PaymentError {
    MissingHeader,
    VerifyFailed(String),
    SettleFailed(String),
}

impl Clone for PaymentError {
    fn clone(&self) -> (r: Self)
        ensures
            r == *self,
    {
        match self {
            PaymentError::MissingHeader => PaymentError::MissingHeader,
            PaymentError::VerifyFailed(d) => PaymentError::VerifyFailed(d.clone()),
            PaymentError::SettleFailed(d) => PaymentError::SettleFailed(d.clone()),
        }
    }
}

impl PaymentError {
    /// The text of the error.
    pub open spec fn message_spec(self) -> Seq<char> {
        match self {
            PaymentError::MissingHeader => "missing payment header"@,
            PaymentError::VerifyFailed(d) => "payment verification failed: "@ + d@,
            PaymentError::SettleFailed(d) => "payment settlement failed: "@ + d@,
        }
    }

    /// The text of the error.
    pub fn message(&self) -> (r: String)
        ensures
            r@ == self.message_spec(),
    {
        match self {
            PaymentError::MissingHeader => "missing payment header".to_owned(),
            PaymentError::VerifyFailed(d) => {
                let mut m = "payment verification failed: ".to_owned();
                push_text(&mut m, d.as_str());
                m
            },
            PaymentError::SettleFailed(d) => {
                let mut m = "payment settlement failed: ".to_owned();
                push_text(&mut m, d.as_str());
                m
            },
        }
    }
}

/// The resource URL: the base URL without trailing slashes, then the path.
pub open spec fn resource_url(base_url: Seq<char>, resource_path: Seq<char>) -> Seq<char> {
    strip_end(base_url, '/') + resource_path
}

/// The resource URL: the base URL without trailing slashes, then the path.
fn resource_url_exec(base_url: &str, resource_path: &str) -> (r: String)
    ensures
        r@ == resource_url(base_url@, resource_path@),
{
    let mut r = strip_end_text(base_url, '/');
    push_text(&mut r, resource_path);
    r
}

/// Whether `r` holds the v1 payment requirements for `resource_path` under
/// `base_url` at the price of `atomic_price` atomic units.
pub open spec fn requirements_built(
    r: PaymentRequirements,
    config: GatewayConfig,
    resource_path: Seq<char>,
    base_url: Seq<char>,
    atomic_price: Option<u64>,
) -> bool {
    &&& r.scheme@ == "exact"@
    &&& r.network == config.x402_network
    &&& r.max_amount_required@ == atomic_price_text_spec(atomic_price)
    &&& r.pay_to == config.payto_address
    &&& r.asset@ == config.x402_asset_contract@
    &&& r.resource@ == resource_url(base_url, resource_path)
    &&& r.max_timeout_seconds == 300
}

/// Builds v1 payment requirements for `resource_path` under `base_url` (the
/// public base URL), at the price of `atomic_price` atomic USDC units (`None`
/// where the configured price does not read as a number).
pub fn build_payment_requirements(
    config: &GatewayConfig,
    resource_path: &str,
    base_url: &str,
    atomic_price: Option<u64>,
) -> (r: PaymentRequirements)
    ensures
        r.scheme@ == "exact"@,
        r.network == config.x402_network,
        r.max_amount_required@ == atomic_price_text_spec(atomic_price),
        r.pay_to == config.payto_address,
        r.asset@ == config.x402_asset_contract@,
        r.resource@ == resource_url(base_url@, resource_path@),
        r.max_timeout_seconds == 300,
        requirements_built(r, *config, resource_path@, base_url@, atomic_price),
{
    PaymentRequirements {
        scheme: "exact".to_owned(),
        network: config.x402_network.clone(),
        max_amount_required: atomic_price_text(atomic_price),
        pay_to: config.payto_address.clone(),
        asset: config.x402_asset_address().to_owned(),
        resource: resource_url_exec(base_url, resource_path),
        max_timeout_seconds: 300,
    }
}

/// The lower-case hex digit of `v` (below 16).
pub open spec fn hex_digit(v: u32) -> char {
    if v < 10 {
        (48 + v) as char
    } else {
        (87 + v) as char
    }
}

/// How `c` stands inside a JSON string: `"` and `\` after a backslash; backspace,
/// tab, line feed, form feed and carriage return as `\b`, `\t`, `\n`, `\f`, `\r`;
/// the other characters below U+0020 as `\u00` and two lower-case hex digits;
/// every other character as it is.
pub open spec fn json_escape_char(c: char) -> Seq<char> {
    if c == '"' {
        seq!['\\', '"']
    } else if c == '\\' {
        seq!['\\', '\\']
    } else if c == '\u{8}' {
        seq!['\\', 'b']
    } else if c == '\t' {
        seq!['\\', 't']
    } else if c == '\n' {
        seq!['\\', 'n']
    } else if c == '\u{c}' {
        seq!['\\', 'f']
    } else if c == '\r' {
        seq!['\\', 'r']
    } else if (c as u32) < 32 {
        seq!['\\', 'u', '0', '0', hex_digit((c as u32) / 16), hex_digit((c as u32) % 16)]
    } else {
        seq![c]
    }
}

/// The characters of `s`, each escaped for a JSON string.
pub open spec fn json_escaped(s: Seq<char>) -> Seq<char>
    decreases s.len(),
{
    if s.len() == 0 {
        Seq::empty()
    } else {
        json_escaped(s.drop_last()) + json_escape_char(s.last())
    }
}

/// `s` as a JSON string literal.
pub open spec fn json_string_literal(s: Seq<char>) -> Seq<char> {
    seq!['"'] + json_escaped(s) + seq!['"']
}

/// `serde_json::to_string` on a `&str`. Trusted: the result is the JSON string
/// literal of the text, with the escapes of `json_escape_char` (serde_json's
/// `format_escaped_str` and its `ESCAPE` table). Writing a string into memory
/// does not fail, so the default of the error arm is never returned.
#[verifier::external_body]
fn json_string(s: &str) -> (r: String)
    ensures
        r@ == json_string_literal(s@),
{
    serde_json::to_string(s).unwrap_or_default()
}

/// The JSON text of payment requirements with these fields, as serde_json
/// writes a JSON object of them: compact, the keys in byte order.
pub open spec fn requirements_text(
    asset: Seq<char>,
    max_amount_required: Seq<char>,
    max_timeout_seconds: nat,
    network: Seq<char>,
    pay_to: Seq<char>,
    resource: Seq<char>,
    scheme: Seq<char>,
) -> Seq<char> {
    "{\"asset\":"@ + json_string_literal(asset) + ",\"maxAmountRequired\":"@
        + json_string_literal(max_amount_required) + ",\"maxTimeoutSeconds\":"@ + decimal(
        max_timeout_seconds,
    ) + ",\"network\":"@ + json_string_literal(network) + ",\"payTo\":"@ + json_string_literal(
        pay_to,
    ) + ",\"resource\":"@ + json_string_literal(resource) + ",\"scheme\":"@
        + json_string_literal(scheme) + "}"@
}

/// The JSON text of `r`.
pub open spec fn requirements_json_spec(r: PaymentRequirements) -> Seq<char> {
    requirements_text(
        r.asset@,
        r.max_amount_required@,
        r.max_timeout_seconds as nat,
        r.network@,
        r.pay_to@,
        r.resource@,
        r.scheme@,
    )
}

/// Appends the JSON string literal of `s` to `out`.
fn push_json_string(out: &mut String, s: &str)
    ensures
        final(out)@ == old(out)@ + json_string_literal(s@),
{
    let t = json_string(s);
    push_text(out, t.as_str());
}

/// The JSON text of payment requirements, as sent in the `PAYMENT-REQUIRED`
/// header and to the facilitator.
pub fn requirements_json(r: &PaymentRequirements) -> (s: String)
    ensures
        s@ == requirements_json_spec(*r),
{
    let mut s = String::new();
    push_text(&mut s, "{\"asset\":");
    push_json_string(&mut s, r.asset.as_str());
    push_text(&mut s, ",\"maxAmountRequired\":");
    push_json_string(&mut s, r.max_amount_required.as_str());
    push_text(&mut s, ",\"maxTimeoutSeconds\":");
    push_decimal(&mut s, r.max_timeout_seconds);
    push_text(&mut s, ",\"network\":");
    push_json_string(&mut s, r.network.as_str());
    push_text(&mut s, ",\"payTo\":");
    push_json_string(&mut s, r.pay_to.as_str());
    push_text(&mut s, ",\"resource\":");
    push_json_string(&mut s, r.resource.as_str());
    push_text(&mut s, ",\"scheme\":");
    push_json_string(&mut s, r.scheme.as_str());
    push_text(&mut s, "}");
    assert(s@ =~= requirements_json_spec(*r));
    s
}

/// The JSON text that the `PAYMENT-REQUIRED` header carries for
/// `resource_path` under `base_url` at `atomic_price`.
pub open spec fn required_header_text(
    config: GatewayConfig,
    resource_path: Seq<char>,
    base_url: Seq<char>,
    atomic_price: Option<u64>,
) -> Seq<char> {
    requirements_text(
        config.x402_asset_contract@,
        atomic_price_text_spec(atomic_price),
        300,
        config.x402_network@,
        config.payto_address@,
        resource_url(base_url, resource_path),
        "exact"@,
    )
}

/// Builds the 402 body for `resource_path` under `base_url`, and the
/// `PAYMENT-REQUIRED` header value: base64 of the JSON text of the requirements
/// that `build_payment_requirements` gives for the same arguments.
pub fn payment_required_response(
    config: &GatewayConfig,
    resource_path: &str,
    base_url: &str,
    atomic_price: Option<u64>,
) -> (r: (PaymentRequiredBody, String))
    requires
        encode_utf8(required_header_text(*config, resource_path@, base_url@, atomic_price)).len()
            <= usize::MAX / 2,
    ensures
        r.0.error@ == "Payment Required"@,
        r.0.message@ == "This endpoint requires x402 USDC payment before relaying to Osmosis."@,
        r.0.price@ == "$"@ + config.price_usdc@,
        r.0.asset == config.x402_asset,
        r.0.network == config.x402_network,
        r.0.payto == config.payto_address,
        r.0.facilitator == config.facilitator_url,
        r.0.resource@ == resource_url(base_url@, resource_path@),
        r.1@ == base64_standard(
            encode_utf8(required_header_text(*config, resource_path@, base_url@, atomic_price)),
        ),
{
    let mut price = "$".to_owned();
    push_text(&mut price, config.price_usdc.as_str());
    let body = PaymentRequiredBody {
        error: "Payment Required".to_owned(),
        message: "This endpoint requires x402 USDC payment before relaying to Osmosis.".to_owned(),
        price,
        asset: config.x402_asset.clone(),
        network: config.x402_network.clone(),
        payto: config.payto_address.clone(),
        facilitator: config.facilitator_url.clone(),
        resource: resource_url_exec(base_url, resource_path),
    };
    let requirements = build_payment_requirements(config, resource_path, base_url, atomic_price);
    let text = requirements_json(&requirements);
    let header = base64_encode(text.as_str().as_bytes());
    (body, header)
}

/// The `PAYMENT-REQUIRED` header carries exactly the JSON text of the
/// requirements that `build_payment_requirements` gives for the same
/// configuration, resource and price.
pub proof fn law_required_header_is_the_requirements(
    r: PaymentRequirements,
    config: GatewayConfig,
    resource_path: Seq<char>,
    base_url: Seq<char>,
    atomic_price: Option<u64>,
)
    requires
        requirements_built(r, config, resource_path, base_url, atomic_price),
    ensures
        requirements_json_spec(r) == required_header_text(
            config,
            resource_path,
            base_url,
            atomic_price,
        ),
{
}

/// The `PAYMENT-RESPONSE` header value: base64 of the facilitator's settlement
/// answer (its JSON text).
pub fn payment_response_header(settlement_json: &str) -> (r: String)
    requires
        settlement_json.spec_bytes().len() <= usize::MAX / 2,
    ensures
        r@ == base64_standard(settlement_json.spec_bytes()),
{
    base64_encode(settlement_json.as_bytes())
}

/// Trailing slashes of the base URL do not change the resource URL.
pub proof fn law_resource_ignores_trailing_slash(base_url: Seq<char>, resource_path: Seq<char>)
    ensures
        resource_url(base_url.push('/'), resource_path) == resource_url(base_url, resource_path),
{
    assert(base_url.push('/').drop_last() =~= base_url);
}

/// The raw values of the payment headers of a request.
#[derive(Debug, Default)]
pub struct PaymentHeaders {
    /// `PAYMENT-SIGNATURE`
    pub signature: Option<Vec<u8>>,
    /// `X-PAYMENT`
    pub legacy: Option<Vec<u8>>,
}

/// Whether `b` may stand in a header value that reads as text: visible ASCII or tab.
pub open spec fn visible_ascii(b: u8) -> bool {
    (32 <= b && b < 127) || b == 9
}

/// A header value as text, where every byte is visible ASCII or tab.
pub open spec fn header_text(v: Seq<u8>) -> Option<Seq<char>> {
    if forall|i: int| 0 <= i < v.len() ==> visible_ascii(#[trigger] v[i]) {
        Some(v.map_values(|b: u8| b as char))
    } else {
        None
    }
}

/// The header that carries the payment: `PAYMENT-SIGNATURE`, else `X-PAYMENT`.
pub open spec fn chosen_header(h: PaymentHeaders) -> Option<Seq<u8>> {
    match h.signature {
        Some(s) => Some(s@),
        None => match h.legacy {
            Some(l) => Some(l@),
            None => None,
        },
    }
}

/// The payment header's text, if it has one.
pub open spec fn payment_header_spec(h: PaymentHeaders) -> Option<Seq<char>> {
    match chosen_header(h) {
        Some(v) => header_text(v),
        None => None,
    }
}

/// A header value as text.
fn header_text_exec(v: &Vec<u8>) -> (r: Option<String>)
    ensures
        match r {
            Some(s) => header_text(v@) == Some(s@),
            None => header_text(v@) is None,
        },
{
    let mut out = String::new();
    let mut k: usize = 0;
    while k < v.len()
        invariant
            k <= v.len(),
            forall|i: int| 0 <= i < k ==> visible_ascii(#[trigger] v@[i]),
            out@ == v@.take(k as int).map_values(|b: u8| b as char),
        decreases v.len() - k,
    {
        let b = v[k];
        if !((32 <= b && b < 127) || b == 9) {
            return None;
        }
        push_char(&mut out, b as char);
        assert(out@ =~= v@.take(k + 1).map_values(|b: u8| b as char));
        k = k + 1;
    }
    assert(v@.take(k as int) =~= v@);
    Some(out)
}

/// Every header value whose bytes are all visible ASCII (32 to 126) or tab reads
/// as text, character for character, base64's `+`, `/` and `=` among them; a
/// value with any other byte does not.
pub proof fn law_header_text_is_visible_ascii(v: Seq<u8>)
    ensures
        (forall|i: int| 0 <= i < v.len() ==> (32 <= #[trigger] v[i] <= 126 || v[i] == 9))
            ==> header_text(v) == Some(v.map_values(|b: u8| b as char)),
        (exists|i: int| 0 <= i < v.len() && !(32 <= #[trigger] v[i] <= 126 || v[i] == 9))
            ==> header_text(v) is None,
{
}

/// Extracts the payment header value of the request.
pub fn payment_header_value(headers: &PaymentHeaders) -> (r: Option<String>)
    ensures
        match r {
            Some(s) => payment_header_spec(*headers) == Some(s@),
            None => payment_header_spec(*headers) is None,
        },
        headers.signature is Some && (forall|i: int|
            0 <= i < headers.signature->0@.len() ==> (32 <= #[trigger] headers.signature->0@[i]
                <= 126 || headers.signature->0@[i] == 9)) ==> (r matches Some(s) && s@
            == headers.signature->0@.map_values(|b: u8| b as char)),
        headers.signature is None && headers.legacy is Some && (forall|i: int|
            0 <= i < headers.legacy->0@.len() ==> (32 <= #[trigger] headers.legacy->0@[i] <= 126
                || headers.legacy->0@[i] == 9)) ==> (r matches Some(s) && s@
            == headers.legacy->0@.map_values(|b: u8| b as char)),
        headers.signature is None && headers.legacy is None ==> r is None,
{
    proof {
        if headers.signature is Some {
            law_header_text_is_visible_ascii(headers.signature->0@);
        } else if headers.legacy is Some {
            law_header_text_is_visible_ascii(headers.legacy->0@);
        }
    }
    match &headers.signature {
        Some(s) => header_text_exec(s),
        None => match &headers.legacy {
            Some(l) => header_text_exec(l),
            None => None,
        },
    }
}

/// Returns true when a payment header is present.
pub fn has_payment_header(headers: &PaymentHeaders) -> (b: bool)
    ensures
        b == payment_header_spec(*headers) is Some,
{
    payment_header_value(headers).is_some()
}

/// The facilitator URL for `action`: the facilitator URL without trailing
/// slashes, `/`, then the action.
pub fn facilitator_endpoint(config: &GatewayConfig, action: &str) -> (r: String)
    ensures
        r@ == strip_end(config.facilitator_url@, '/') + "/"@ + action@,
{
    let mut r = strip_end_text(config.facilitator_url.as_str(), '/');
    push_char(&mut r, '/');
    push_text(&mut r, action);
    proof {
        reveal_strlit("/");
        assert(r@ =~= strip_end(config.facilitator_url@, '/') + "/"@ + action@);
    }
    r
}

/// The JSON body of a verify or settle call:
/// `{"x402Version": 1, "paymentHeader", "paymentRequirements"}`.
#[derive(Debug, PartialEq, Eq)]
pub struct FacilitatorRequest {
    pub x402_version: u64,
    pub payment_header: String,
    pub payment_requirements: PaymentRequirements,
}

/// The body of a verify or settle call for a payment header and its requirements.
pub fn facilitator_request(payment_header: &str, requirements: &PaymentRequirements) -> (r:
    FacilitatorRequest)
    ensures
        r.x402_version == 1,
        r.payment_header@ == payment_header@,
        r.payment_requirements == *requirements,
{
    FacilitatorRequest {
        x402_version: 1,
        payment_header: payment_header.to_owned(),
        payment_requirements: requirements.clone(),
    }
}

/// Where a facilitator call broke off before an answer was read.
#[derive(Debug, Clone, Copy, PartialEq, Eq, Structural)]
pub enum FacilitatorStage {
    /// The HTTP client could not be built.
    Client,
    /// The request could not be sent.
    Send,
    /// The answer was not JSON.
    Parse,
}

/// What a facilitator call gave back.
#[derive(Debug, PartialEq, Eq)]
pub enum FacilitatorReply {
    /// The call broke off; `detail` is the transport's error text.
    Unreachable { stage: FacilitatorStage, detail: String },
    /// A JSON answer arrived.
    Answered {
        /// Whether the HTTP status was a success (2xx).
        success_status: bool,
        /// The HTTP status as text (`400 Bad Request`).
        status_text: String,
        /// The JSON answer as text.
        payload_text: String,
        /// The verdict field (`isValid` for verify, `success` for settle) where it is a boolean.
        verdict: Option<bool>,
        /// The reason field (`invalidReason` for verify, `errorReason` for settle) as JSON text.
        reason: Option<String>,
        /// The `error` field as JSON text.
        error: Option<String>,
    },
}

/// `facilitator HTTP <status>: <payload>`.
pub open spec fn http_failure_text(status_text: Seq<char>, payload_text: Seq<char>) -> Seq<char> {
    "facilitator HTTP "@ + status_text + ": "@ + payload_text
}

/// The reason of a refusal: the reason field, else the `error` field, else `fallback`.
pub open spec fn refusal_text(reason: Option<String>, error: Option<String>, fallback: Seq<char>) -> Seq<
    char,
> {
    match reason {
        Some(r) => r@,
        None => text_or(error, fallback),
    }
}

fn http_failure_exec(status_text: &str, payload_text: &str) -> (r: String)
    ensures
        r@ == http_failure_text(status_text@, payload_text@),
{
    let mut m = "facilitator HTTP ".to_owned();
    push_text(&mut m, status_text);
    push_text(&mut m, ": ");
    push_text(&mut m, payload_text);
    m
}

fn refusal_exec(reason: Option<String>, error: Option<String>, fallback: &str) -> (r: String)
    ensures
        r@ == refusal_text(reason, error, fallback@),
{
    match reason {
        Some(r) => r,
        None => match error {
            Some(e) => e,
            None => fallback.to_owned(),
        },
    }
}

/// The text of a verify call that broke off at `stage`.
pub open spec fn verify_unreachable_text(stage: FacilitatorStage) -> Seq<char> {
    match stage {
        FacilitatorStage::Client => "build facilitator HTTP client"@,
        FacilitatorStage::Send => "facilitator verify request failed"@,
        FacilitatorStage::Parse => "facilitator verify response parse failed"@,
    }
}

/// Decides a verify call: the payment session to settle later, or why the payment
/// is refused.
pub fn verify_outcome(
    payment_header: &str,
    requirements: &PaymentRequirements,
    reply: FacilitatorReply,
) -> (r: Result<PaymentSession, PaymentError>)
    ensures
        match reply {
            FacilitatorReply::Unreachable { stage, detail } => r matches Err(
                PaymentError::VerifyFailed(d),
            ) && d@ == verify_unreachable_text(stage),
            FacilitatorReply::Answered {
                success_status,
                status_text,
                payload_text,
                verdict,
                reason,
                error,
            } => if !success_status {
                r matches Err(PaymentError::VerifyFailed(d)) && d@ == http_failure_text(
                    status_text@,
                    payload_text@,
                )
            } else if verdict == Some(false) {
                r matches Err(PaymentError::VerifyFailed(d)) && d@ == refusal_text(
                    reason,
                    error,
                    "invalid payment"@,
                )
            } else {
                r matches Ok(s) && s.payment_header@ == payment_header@ && s.requirements
                    == *requirements
            },
        },
{
    match reply {
        FacilitatorReply::Unreachable { stage, detail } => {
            let d = match stage {
                FacilitatorStage::Client => "build facilitator HTTP client".to_owned(),
                FacilitatorStage::Send => "facilitator verify request failed".to_owned(),
                FacilitatorStage::Parse => "facilitator verify response parse failed".to_owned(),
            };
            Err(PaymentError::VerifyFailed(d))
        },
        FacilitatorReply::Answered {
            success_status,
            status_text,
            payload_text,
            verdict,
            reason,
            error,
        } => {
            if !success_status {
                return Err(
                    PaymentError::VerifyFailed(
                        http_failure_exec(status_text.as_str(), payload_text.as_str()),
                    ),
                );
            }
            if verdict == Some(false) {
                return Err(
                    PaymentError::VerifyFailed(refusal_exec(reason, error, "invalid payment")),
                );
            }
            Ok(
                PaymentSession {
                    payment_header: payment_header.to_owned(),
                    requirements: requirements.clone(),
                },
            )
        },
    }
}

/// Decides a settle call: the facilitator's JSON answer, or why settlement failed.
pub fn settle_outcome(reply: FacilitatorReply) -> (r: Result<String, PaymentError>)
    ensures
        match reply {
            FacilitatorReply::Unreachable { stage, detail } => r matches Err(
                PaymentError::SettleFailed(d),
            ) && d@ == (if stage == FacilitatorStage::Client {
                "build facilitator HTTP client"@
            } else {
                detail@
            }),
            FacilitatorReply::Answered {
                success_status,
                status_text,
                payload_text,
                verdict,
                reason,
                error,
            } => if !success_status {
                r matches Err(PaymentError::SettleFailed(d)) && d@ == http_failure_text(
                    status_text@,
                    payload_text@,
                )
            } else if verdict == Some(false) {
                r matches Err(PaymentError::SettleFailed(d)) && d@ == refusal_text(
                    reason,
                    error,
                    "settlement failed"@,
                )
            } else {
                r == Ok::<String, PaymentError>(payload_text)
            },
        },
{
    match reply {
        FacilitatorReply::Unreachable { stage, detail } => {
            let d = match stage {
                FacilitatorStage::Client => "build facilitator HTTP client".to_owned(),
                _ => detail,
            };
            Err(PaymentError::SettleFailed(d))
        },
        FacilitatorReply::Answered {
            success_status,
            status_text,
            payload_text,
            verdict,
            reason,
            error,
        } => {
            if !success_status {
                return Err(
                    PaymentError::SettleFailed(
                        http_failure_exec(status_text.as_str(), payload_text.as_str()),
                    ),
                );
            }
            if verdict == Some(false) {
                return Err(
                    PaymentError::SettleFailed(refusal_exec(reason, error, "settlement failed")),
                );
            }
            Ok(payload_text)
        },
    }
}

} // verus!
