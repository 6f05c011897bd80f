use vstd::prelude::*;
use crate::digest::{
    eq_ignore_case, hex_encode, lemma_case_insensitive_match, lemma_hex_encode_lower, sha256_of,
    verify_content,
};
use crate::envelope::{seal, signing_bytes, signing_message, IntentScope, SignedEnvelope};
use crate::gateway::{
    blob_url, blob_url_spec, check_status, clock_failed, clock_message, download_failed,
    download_message, gateway_spec, is_success_status, read_failed, read_message, resolve_gateway,
    status_message,
};
use crate::hexnorm::{
    invalid_input_message, is_normalized_digest, normalize_hex, normalize_spec,
};
use crate::types::{OracleError, WalrusVerificationRequest, WalrusVerificationResult};

verus! {

/// A request whose digest was accepted, with the address to fetch.
pub struct FetchPlan {
    pub blob_id: String,
    pub expected_sha256: String,
    pub walrus_gateway: String,
    pub url: String,
}

/// Where a request stands. Each stage but the last two names the outside
/// work that is to be done next.
pub enum Stage {
    /// Send a GET to the plan's address.
    Fetching(FetchPlan),
    /// Read the body of the response.
    Reading(FetchPlan),
    /// Read the clock.
    Timing(WalrusVerificationResult),
    /// Sign `message` with the enclave's key.
    Signing { payload: WalrusVerificationResult, timestamp_ms: u64, message: Vec<u8> },
    Done(SignedEnvelope),
    Failed(OracleError),
}

/// The outcome of the outside work a stage asked for.
pub enum Event {
    SendFailed(String),
    Status(u16),
    BodyFailed(String),
    Body(Vec<u8>),
    Clock(u64),
    ClockFailed(String),
    Signed(Vec<u8>),
}

pub open spec fn option_view(o: Option<String>) -> Option<Seq<char>> {
    match o {
        Some(s) => Some(s@),
        None => None,
    }
}

/// The stage a request starts in.
pub open spec fn start_spec(request: WalrusVerificationRequest, r: Stage) -> bool {
    match normalize_spec(request.expected_sha256@) {
        None => r is Failed && r->Failed_0 is InvalidInput && r->Failed_0->InvalidInput_0@
            == invalid_input_message(request.expected_sha256@),
        Some(n) => {
            let g = gateway_spec(option_view(request.walrus_gateway));
            &&& r is Fetching
            &&& r->Fetching_0.blob_id == request.blob_id
            &&& r->Fetching_0.expected_sha256@ == n
            &&& is_normalized_digest(n)
            &&& r->Fetching_0.walrus_gateway@ == g
            &&& r->Fetching_0.url@ == blob_url_spec(g, request.blob_id@)
        },
    }
}

pub open spec fn failed_with_retrieval(r: Stage, m: Seq<char>) -> bool {
    r is Failed && r->Failed_0 is RetrievalFailed && r->Failed_0->RetrievalFailed_0@ == m
}

/// The stage that follows `stage` on `event`; an event that the stage does not
/// wait for leaves it as it is.
pub open spec fn step_spec(stage: Stage, event: Event, r: Stage) -> bool {
    match stage {
        Stage::Fetching(p) => match event {
            Event::SendFailed(d) => failed_with_retrieval(r, download_message(p.walrus_gateway@, p.blob_id@, d@)),
            Event::Status(s) => if is_success_status(s) {
                r == Stage::Reading(p)
            } else {
                failed_with_retrieval(r, status_message(p.walrus_gateway@, s, p.blob_id@))
            },
            _ => r == stage,
        },
        Stage::Reading(p) => match event {
            Event::BodyFailed(d) => failed_with_retrieval(r, read_message(p.walrus_gateway@, p.blob_id@, d@)),
            Event::Body(b) => {
                &&& r is Timing
                &&& r->Timing_0.blob_id == p.blob_id
                &&& r->Timing_0.expected_sha256 == p.expected_sha256
                &&& sha256_of(b@).len() == 32
                &&& r->Timing_0.computed_sha256@ == hex_encode(sha256_of(b@))
                &&& r->Timing_0.computed_sha256@.len() == 64
                &&& r->Timing_0.verified == eq_ignore_case(
                    hex_encode(sha256_of(b@)),
                    p.expected_sha256@,
                )
                &&& r->Timing_0.blob_size == b@.len()
                &&& r->Timing_0.walrus_gateway == p.walrus_gateway
            },
            _ => r == stage,
        },
        Stage::Timing(res) => match event {
            Event::Clock(t) => r == (Stage::Signing {
                payload: res,
                timestamp_ms: t,
                message: r->message,
            }) && r->message@ == signing_bytes(IntentScope::ProcessData, t, res),
            Event::ClockFailed(d) => r is Failed && r->Failed_0 is ClockError
                && r->Failed_0->ClockError_0@ == clock_message(d@),
            _ => r == stage,
        },
        Stage::Signing { payload, timestamp_ms, message } => match event {
            Event::Signed(sig) => r == Stage::Done(
                SignedEnvelope {
                    intent_scope: IntentScope::ProcessData,
                    timestamp_ms,
                    payload,
                    signature: sig,
                },
            ),
            _ => r == stage,
        },
        _ => r == stage,
    }
}

/// Takes a request in: its digest is normalised first, so a request with an
/// invalid digest fails before any fetch is asked for.
pub fn start(request: WalrusVerificationRequest) -> (r: Stage)
    ensures
        start_spec(request, r),
{
    let ghost req = request;
    let WalrusVerificationRequest { blob_id, expected_sha256, walrus_gateway } = request;
    match normalize_hex(expected_sha256.as_str()) {
        Err(e) => Stage::Failed(e),
        Ok(expected) => {
            let gateway = resolve_gateway(&walrus_gateway);
            let url = blob_url(gateway.as_str(), blob_id.as_str());
            Stage::Fetching(FetchPlan { blob_id, expected_sha256: expected, walrus_gateway: gateway, url })
        },
    }
}

/// Advances a request by the outcome of the outside work its stage asked for.
pub fn step(stage: Stage, event: Event) -> (r: Stage)
    ensures
        step_spec(stage, event, r),
{
    match stage {
        Stage::Fetching(p) => match event {
            Event::SendFailed(d) => Stage::Failed(download_failed(
                p.walrus_gateway.as_str(),
                p.blob_id.as_str(),
                d.as_str(),
            )),
            Event::Status(s) => match check_status(p.walrus_gateway.as_str(), p.blob_id.as_str(), s) {
                Ok(()) => Stage::Reading(p),
                Err(e) => Stage::Failed(e),
            },
            _ => Stage::Fetching(p),
        },
        Stage::Reading(p) => match event {
            Event::BodyFailed(d) => Stage::Failed(read_failed(
                p.walrus_gateway.as_str(),
                p.blob_id.as_str(),
                d.as_str(),
            )),
            Event::Body(b) => Stage::Timing(
                verify_content(p.blob_id, p.expected_sha256, b.as_slice(), p.walrus_gateway),
            ),
            _ => Stage::Reading(p),
        },
        Stage::Timing(res) => match event {
            Event::Clock(t) => {
                let message = signing_message(IntentScope::ProcessData, t, &res);
                Stage::Signing { payload: res, timestamp_ms: t, message }
            },
            Event::ClockFailed(d) => Stage::Failed(clock_failed(d.as_str())),
            _ => Stage::Timing(res),
        },
        Stage::Signing { payload, timestamp_ms, message } => match event {
            Event::Signed(sig) => Stage::Done(
                seal(IntentScope::ProcessData, timestamp_ms, payload, sig),
            ),
            _ => Stage::Signing { payload, timestamp_ms, message },
        },
        Stage::Done(env) => Stage::Done(env),
        Stage::Failed(e) => Stage::Failed(e),
    }
}

/// A request whose expected digest is the hex text of the body's SHA-256,
/// written in any mix of ASCII cases, is accepted, and once the gateway has
/// answered with success and that body, its verdict is positive and its
/// expected and computed digests are both the lower-case hex text. The digest
/// is the 32 bytes that hashing gives for every body (see `verify_content`).
pub proof fn lemma_any_case_request_verified(
    request: WalrusVerificationRequest,
    fetching: Stage,
    reading: Stage,
    timing: Stage,
    status: u16,
    body: Vec<u8>,
)
    requires
        sha256_of(body@).len() == 32,
        eq_ignore_case(request.expected_sha256@, hex_encode(sha256_of(body@))),
        is_success_status(status),
        start_spec(request, fetching),
        step_spec(fetching, Event::Status(status), reading),
        step_spec(reading, Event::Body(body), timing),
    ensures
        fetching is Fetching,
        timing is Timing,
        timing->Timing_0.verified,
        timing->Timing_0.expected_sha256@ == hex_encode(sha256_of(body@)),
        timing->Timing_0.computed_sha256@ == hex_encode(sha256_of(body@)),
{
    lemma_case_insensitive_match(sha256_of(body@), request.expected_sha256@);
    lemma_hex_encode_lower(sha256_of(body@));
}

} // verus!
