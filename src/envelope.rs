use vstd::prelude::*;
use crate::types::WalrusVerificationResult;

verus! {

/// The purpose a signature is made for; it is signed with the payload so
/// that a signature cannot be reused for another purpose.
#[derive(Clone, Copy, PartialEq, Eq, Structural)]
pub enum IntentScope {
    ProcessData,
}

/// A verdict with the time it was made and the enclave's signature over both.
pub struct SignedEnvelope {
    pub intent_scope: IntentScope,
    pub timestamp_ms: u64,
    pub payload: WalrusVerificationResult,
    pub signature: Vec<u8>,
}

pub open spec fn scope_tag(scope: IntentScope) -> u8 {
    match scope {
        IntentScope::ProcessData => 0,
    }
}

/// The `k` low bytes of `n`, least significant first.
pub open spec fn le_bytes(n: nat, k: nat) -> Seq<u8>
    decreases k,
{
    if k == 0 {
        seq![]
    } else {
        seq![(n % 256) as u8] + le_bytes(n / 256, (k - 1) as nat)
    }
}

/// A text field: its UTF-8 length in eight little-endian bytes, then its bytes.
pub open spec fn text_field(s: Seq<char>) -> Seq<u8> {
    le_bytes(vstd::utf8::encode_utf8(s).len(), 8) + vstd::utf8::encode_utf8(s)
}

/// The bytes that are signed: the scope's tag, the timestamp and each field of
/// the payload in declaration order.
pub open spec fn signing_bytes(scope: IntentScope, timestamp_ms: u64, p: WalrusVerificationResult) -> Seq<u8> {
    seq![scope_tag(scope)] + le_bytes(timestamp_ms as nat, 8) + text_field(p.blob_id@) + text_field(
        p.expected_sha256@,
    ) + text_field(p.computed_sha256@) + seq![if p.verified { 1u8 } else { 0u8 }] + le_bytes(
        p.blob_size as nat,
        8,
    ) + text_field(p.walrus_gateway@)
}

fn push_u64(out: &mut Vec<u8>, n: u64)
    ensures
        final(out)@ == old(out)@ + le_bytes(n as nat, 8),
{
    let ghost start = out@;
    let mut x: u64 = n;
    let mut i: usize = 0;
    while i < 8
        invariant
            i <= 8,
            start + le_bytes(n as nat, 8) == out@ + le_bytes(x as nat, (8 - i) as nat),
        decreases 8 - i,
    {
        let ghost prev = out@;
        out.push((x % 256) as u8);
        assert(le_bytes(x as nat, (8 - i) as nat) == seq![(x % 256) as u8] + le_bytes(
            (x / 256) as nat,
            (8 - i - 1) as nat,
        ));
        assert(prev + le_bytes(x as nat, (8 - i) as nat) =~= out@ + le_bytes(
            (x / 256) as nat,
            (8 - i - 1) as nat,
        ));
        x = x / 256;
        i = i + 1;
    }
    assert(le_bytes(x as nat, 0) =~= seq![]);
    assert(out@ =~= start + le_bytes(n as nat, 8));
}

fn push_text(out: &mut Vec<u8>, s: &String)
    ensures
        final(out)@ == old(out)@ + text_field(s@),
{
    let b = s.as_str().as_bytes();
    push_u64(out, b.len() as u64);
    out.extend_from_slice(b);
}

/// The bytes an enclave signs for `payload` at `timestamp_ms` under `scope`.
pub fn signing_message(scope: IntentScope, timestamp_ms: u64, payload: &WalrusVerificationResult) -> (r:
    Vec<u8>)
    ensures
        r@ == signing_bytes(scope, timestamp_ms, *payload),
{
    let mut out: Vec<u8> = Vec::new();
    match scope {
        IntentScope::ProcessData => out.push(0u8),
    }
    push_u64(&mut out, timestamp_ms);
    push_text(&mut out, &payload.blob_id);
    push_text(&mut out, &payload.expected_sha256);
    push_text(&mut out, &payload.computed_sha256);
    out.push(if payload.verified { 1u8 } else { 0u8 });
    push_u64(&mut out, payload.blob_size);
    push_text(&mut out, &payload.walrus_gateway);
    assert(out@ =~= signing_bytes(scope, timestamp_ms, *payload));
    out
}

/// Wraps a verdict, its timestamp and scope, and the signature over them.
pub fn seal(
    scope: IntentScope,
    timestamp_ms: u64,
    payload: WalrusVerificationResult,
    signature: Vec<u8>,
) -> (r: SignedEnvelope)
    ensures
        r.intent_scope == scope,
        r.timestamp_ms == timestamp_ms,
        r.payload == payload,
        r.signature == signature,
{
    SignedEnvelope { intent_scope: scope, timestamp_ms, payload, signature }
}

} // verus!
