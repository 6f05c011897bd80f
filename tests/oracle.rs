use ai_trust_oracle::digest::{digests_match, encode_hex, verification_result_from_digest, verify_content};
use ai_trust_oracle::envelope::{seal, signing_message, IntentScope};
use ai_trust_oracle::gateway::{
    blob_url, check_status, decimal_string, resolve_gateway, DEFAULT_WALRUS_GATEWAY,
};
use ai_trust_oracle::hexnorm::normalize_hex;
use ai_trust_oracle::pipeline::{start, step, Event, Stage};
use ai_trust_oracle::types::{OracleError, WalrusVerificationRequest, WalrusVerificationResult};

const ABC_SHA256: &str = "ba7816bf8f01cfea414140de5dae2223b00361a396177a9cb410ff61f20015ad";

fn payload() -> WalrusVerificationResult {
    WalrusVerificationResult {
        blob_id: "blob".to_string(),
        expected_sha256: "deadbeef".to_string(),
        computed_sha256: "deadbeef".to_string(),
        verified: true,
        blob_size: 0,
        walrus_gateway: DEFAULT_WALRUS_GATEWAY.to_string(),
    }
}

fn request(expected: &str, gateway: Option<&str>) -> WalrusVerificationRequest {
    WalrusVerificationRequest {
        blob_id: "blob-1".to_string(),
        expected_sha256: expected.to_string(),
        walrus_gateway: gateway.map(|g| g.to_string()),
    }
}

fn is_invalid_input<T>(r: &Result<T, OracleError>) -> bool {
    matches!(r, Err(OracleError::InvalidInput(_)))
}

#[test]
fn normalize_rejects_invalid_hex() {
    assert!(normalize_hex("zz").is_err());
    assert!(normalize_hex("").is_err());
    assert!(normalize_hex("0x1").is_err());
}

#[test]
fn normalize_accepts_prefixed() {
    assert_eq!(normalize_hex("0xABCD").unwrap(), "abcd".to_string());
}

#[test]
fn signing_wraps_response() {
    let payload = payload();
    let message = signing_message(IntentScope::ProcessData, 1, &payload);
    assert!(!message.is_empty());
    let signature: Vec<u8> = vec![0x5a; 64];
    let signed = seal(IntentScope::ProcessData, 1, payload.clone(), signature.clone());
    assert_eq!(signed.payload.blob_id, payload.blob_id);
    assert!(!signed.signature.is_empty());
    assert_eq!(signed.signature, signature);
}

#[test]
fn rejection_set_is_invalid_input() {
    assert!(is_invalid_input(&normalize_hex("")));
    assert!(is_invalid_input(&normalize_hex("0x1")));
    assert!(is_invalid_input(&normalize_hex("zz")));
    assert!(is_invalid_input(&normalize_hex("0x")));
    assert!(is_invalid_input(&normalize_hex("   ")));
    assert!(is_invalid_input(&normalize_hex("0x0xab")));
    assert!(is_invalid_input(&normalize_hex("ab cd")));
    assert!(is_invalid_input(&normalize_hex("abé1")));
}

#[test]
fn normalize_trims_and_lowers() {
    assert_eq!(normalize_hex("  0XDeadBeef\n").unwrap(), "deadbeef".to_string());
    assert_eq!(normalize_hex("\u{3000}00ff\t").unwrap(), "00ff".to_string());
    assert_eq!(normalize_hex("0123456789ABCDEF").unwrap(), "0123456789abcdef".to_string());
}

#[test]
fn normalize_is_idempotent() {
    let once = normalize_hex(" 0xAbCd01 ").unwrap();
    let twice = normalize_hex(&once).unwrap();
    assert_eq!(once, twice);
}

#[test]
fn prefix_does_not_change_digest() {
    let h = "C0FFEE";
    let with_prefix = format!("0x{}", h);
    assert_eq!(normalize_hex(&with_prefix).unwrap(), normalize_hex(h).unwrap());
}

#[test]
fn hex_encoding_is_lower_case() {
    assert_eq!(encode_hex(&[0x00, 0x0f, 0xa5, 0xff]), "000fa5ff".to_string());
    assert_eq!(encode_hex(&[]), String::new());
}

#[test]
fn digests_compare_ignoring_case() {
    assert!(digests_match("deadBEEF", "DEADbeef"));
    assert!(!digests_match("deadbeef", "deadbeee"));
    assert!(!digests_match("dead", "deadbeef"));
}

#[test]
fn content_is_hashed_with_sha256() {
    let r = verify_content(
        "b".to_string(),
        ABC_SHA256.to_string(),
        b"abc",
        "g".to_string(),
    );
    assert_eq!(r.computed_sha256, ABC_SHA256.to_string());
    assert!(r.verified);
    assert_eq!(r.blob_size, 3);
    assert_eq!(r.blob_id, "b".to_string());
    assert_eq!(r.walrus_gateway, "g".to_string());
}

#[test]
fn upper_case_digest_still_matches() {
    let expected = normalize_hex(&ABC_SHA256.to_uppercase()).unwrap();
    let r = verify_content("b".to_string(), expected, b"abc", "g".to_string());
    assert!(r.verified);
    assert_eq!(r.expected_sha256, ABC_SHA256.to_string());
    assert_eq!(r.computed_sha256.len(), 64);
}

#[test]
fn tampered_digest_is_detected() {
    let wrong = "ca7816bf8f01cfea414140de5dae2223b00361a396177a9cb410ff61f20015ad";
    let r = verify_content("b".to_string(), wrong.to_string(), b"abc", "g".to_string());
    assert!(!r.verified);
    assert_eq!(r.computed_sha256, ABC_SHA256.to_string());
    assert_eq!(r.expected_sha256, wrong.to_string());
}

#[test]
fn result_from_given_digest() {
    let digest = [0xde, 0xad, 0xbe, 0xef];
    let r = verification_result_from_digest(
        "x".to_string(),
        "DEADBEEF".to_string(),
        &digest,
        9,
        "g".to_string(),
    );
    assert_eq!(r.computed_sha256, "deadbeef".to_string());
    assert!(r.verified);
    assert_eq!(r.blob_size, 9);
}

#[test]
fn gateway_resolution() {
    assert_eq!(resolve_gateway(&None), "https://api.walrus.xyz".to_string());
    assert_eq!(resolve_gateway(&Some("http://gw.local///".to_string())), "http://gw.local".to_string());
    assert_eq!(resolve_gateway(&Some("/".to_string())), String::new());
    assert_eq!(blob_url("http://gw", "abc"), "http://gw/v1/blobs/abc".to_string());
}

#[test]
fn status_codes() {
    assert!(check_status("g", "b", 200).is_ok());
    assert!(check_status("g", "b", 299).is_ok());
    match check_status("http://gw", "blob-9", 404) {
        Err(OracleError::RetrievalFailed(m)) => {
            assert_eq!(m, "Walrus gateway http://gw returned 404 for blob blob-9".to_string())
        }
        _ => panic!("a 404 must fail"),
    }
    assert!(check_status("g", "b", 199).is_err());
    assert!(check_status("g", "b", 300).is_err());
    assert_eq!(decimal_string(0), "0".to_string());
    assert_eq!(decimal_string(65535), "65535".to_string());
}

#[test]
fn signing_message_layout() {
    let p = WalrusVerificationResult {
        blob_id: "b".to_string(),
        expected_sha256: "ab".to_string(),
        computed_sha256: "cd".to_string(),
        verified: false,
        blob_size: 258,
        walrus_gateway: "g".to_string(),
    };
    let m = signing_message(IntentScope::ProcessData, 0x0102, &p);
    let mut want: Vec<u8> = vec![0, 2, 1, 0, 0, 0, 0, 0, 0];
    want.extend_from_slice(&[1, 0, 0, 0, 0, 0, 0, 0, b'b']);
    want.extend_from_slice(&[2, 0, 0, 0, 0, 0, 0, 0, b'a', b'b']);
    want.extend_from_slice(&[2, 0, 0, 0, 0, 0, 0, 0, b'c', b'd']);
    want.push(0);
    want.extend_from_slice(&[2, 1, 0, 0, 0, 0, 0, 0]);
    want.extend_from_slice(&[1, 0, 0, 0, 0, 0, 0, 0, b'g']);
    assert_eq!(m, want);
    let again = signing_message(IntentScope::ProcessData, 0x0102, &p);
    assert_eq!(m, again);
}

#[test]
fn end_to_end_matching_digest() {
    let expected = format!("0x{}", ABC_SHA256.to_uppercase());
    let s = start(request(&expected, Some("http://gw/")));
    let s = match s {
        Stage::Fetching(p) => {
            assert_eq!(p.url, "http://gw/v1/blobs/blob-1".to_string());
            step(Stage::Fetching(p), Event::Status(200))
        }
        _ => panic!("a valid request must fetch"),
    };
    let s = step(s, Event::Body(b"abc".to_vec()));
    let s = step(s, Event::Clock(1700));
    let s = match s {
        Stage::Signing { payload, timestamp_ms, message } => {
            assert_eq!(message, signing_message(IntentScope::ProcessData, 1700, &payload));
            step(Stage::Signing { payload, timestamp_ms, message }, Event::Signed(vec![7, 7]))
        }
        _ => panic!("the clock reading leads to signing"),
    };
    match s {
        Stage::Done(env) => {
            assert!(env.payload.verified);
            assert_eq!(env.payload.computed_sha256, ABC_SHA256.to_string());
            assert_eq!(env.payload.expected_sha256, ABC_SHA256.to_string());
            assert_eq!(env.payload.walrus_gateway, "http://gw".to_string());
            assert_eq!(env.timestamp_ms, 1700);
            assert_eq!(env.signature, vec![7, 7]);
            assert!(env.intent_scope == IntentScope::ProcessData);
        }
        _ => panic!("the signature completes the request"),
    }
}

#[test]
fn end_to_end_not_found() {
    let s = start(request("00ff", None));
    let s = step(s, Event::Status(404));
    match s {
        Stage::Failed(OracleError::RetrievalFailed(m)) => {
            assert!(m.contains("blob-1"));
            assert!(m.contains("404"));
            assert!(m.contains("https://api.walrus.xyz"));
        }
        _ => panic!("a 404 fails the request"),
    }
}

#[test]
fn end_to_end_empty_digest() {
    match start(request("", None)) {
        Stage::Failed(OracleError::InvalidInput(m)) => {
            assert_eq!(m, "expected_sha256 is required".to_string())
        }
        _ => panic!("an empty digest fails before any fetch"),
    }
}

#[test]
fn transport_and_clock_failures() {
    let s = step(start(request("00ff", None)), Event::SendFailed("timed out".to_string()));
    match s {
        Stage::Failed(OracleError::RetrievalFailed(m)) => {
            assert_eq!(
                m,
                "Failed to download Walrus blob blob-1 from gateway https://api.walrus.xyz: timed out"
                    .to_string()
            )
        }
        _ => panic!("a send failure fails the request"),
    }
    let s = step(start(request("00ff", None)), Event::Status(200));
    let s = step(s, Event::BodyFailed("reset".to_string()));
    match s {
        Stage::Failed(OracleError::RetrievalFailed(m)) => assert_eq!(
            m,
            "Failed to read Walrus blob blob-1 from gateway https://api.walrus.xyz: reset".to_string()
        ),
        _ => panic!("a body read failure fails the request"),
    }
    let s = step(start(request("00ff", None)), Event::Status(200));
    let s = step(s, Event::Body(vec![]));
    let s = step(s, Event::ClockFailed("before epoch".to_string()));
    match s {
        Stage::Failed(OracleError::ClockError(m)) => {
            assert_eq!(m, "Invalid system time: before epoch".to_string())
        }
        _ => panic!("a clock failure fails the request"),
    }
}

#[test]
fn unexpected_event_is_ignored() {
    let s = step(start(request("00ff", None)), Event::Clock(5));
    assert!(matches!(s, Stage::Fetching(_)));
}

#[test]
fn invalid_input_messages() {
    match normalize_hex("  0x ") {
        Err(OracleError::InvalidInput(m)) => assert_eq!(m, "expected_sha256 is required".to_string()),
        _ => panic!("an empty digest is refused"),
    }
    match normalize_hex("0xabc") {
        Err(OracleError::InvalidInput(m)) => {
            assert_eq!(m, "expected_sha256 must be valid hex, got 0xabc".to_string())
        }
        _ => panic!("an odd digest is refused"),
    }
}
