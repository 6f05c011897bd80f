use vstd::prelude::*;
use crate::hexnorm::{
    all_hex, ascii_lower, hex_digit_char, hex_digit_str, is_hex_char, is_lower_hex_char,
    lemma_hex_char_lower, lemma_trim_keeps, lower_seq, normalize_spec, strip_hex_prefix,
};
use crate::types::WalrusVerificationResult;

verus! {

/// The SHA-256 digest of a byte sequence.
pub uninterp spec fn sha256_of(b: Seq<u8>) -> Seq<u8>;

/// Relies on `sha2::Sha256` (through `sha2::Digest::digest`): the SHA-256
/// digest of `b`, which is 32 bytes long.
#[verifier::external_body]
fn sha256(b: &[u8]) -> (r: Vec<u8>)
    ensures
        r@ == sha256_of(b@),
        r@.len() == 32,
{
    <sha2::Sha256 as sha2::Digest>::digest(b).to_vec()
}

/// Two lower-case hex digits for each byte, high half first.
pub open spec fn hex_encode(b: Seq<u8>) -> Seq<char> {
    Seq::new(
        2 * b.len(),
        |i: int|
            if i % 2 == 0 {
                hex_digit_char((b[i / 2] / 16) as nat)
            } else {
                hex_digit_char((b[i / 2] % 16) as nat)
            },
    )
}

/// Whether two strings are equal up to ASCII case.
pub open spec fn eq_ignore_case(a: Seq<char>, b: Seq<char>) -> bool {
    lower_seq(a) == lower_seq(b)
}

/// The lower-case hex text of `b`.
pub fn encode_hex(b: &[u8]) -> (r: String)
    ensures
        r@ == hex_encode(b@),
{
    let mut out = String::new();
    let mut i: usize = 0;
    while i < b.len()
        invariant
            i <= b@.len(),
            out@.len() == 2 * i,
            forall|j: int| 0 <= j < 2 * i ==> #[trigger] out@[j] == hex_encode(b@)[j],
        decreases b@.len() - i,
    {
        let ghost prev = out@;
        out.append(hex_digit_str(b[i] / 16));
        out.append(hex_digit_str(b[i] % 16));
        assert forall|j: int| 0 <= j < 2 * (i + 1) implies #[trigger] out@[j] == hex_encode(b@)[j] by {
            if j >= 2 * i {
                assert(j / 2 == i);
            } else {
                assert(out@[j] == prev[j]);
            }
        }
        i = i + 1;
    }
    assert(out@ =~= hex_encode(b@));
    out
}

fn lower_code(c: char) -> (r: u32)
    ensures
        r == ascii_lower(c) as u32,
{
    if 'A' <= c && c <= 'Z' {
        c as u32 + 32
    } else {
        c as u32
    }
}

/// Whether `a` and `b` are equal up to ASCII case.
pub fn digests_match(a: &str, b: &str) -> (r: bool)
    ensures
        r == eq_ignore_case(a@, b@),
{
    let n = a.unicode_len();
    if n != b.unicode_len() {
        assert(lower_seq(a@).len() != lower_seq(b@).len());
        return false;
    }
    let mut i: usize = 0;
    while i < n
        invariant
            i <= n,
            n == a@.len(),
            n == b@.len(),
            forall|j: int| 0 <= j < i ==> ascii_lower(#[trigger] a@[j]) == ascii_lower(b@[j]),
        decreases n - i,
    {
        let ca = a.get_char(i);
        let cb = b.get_char(i);
        if lower_code(ca) != lower_code(cb) {
            assert(lower_seq(a@)[i as int] != lower_seq(b@)[i as int]);
            return false;
        }
        i = i + 1;
    }
    assert(lower_seq(a@) =~= lower_seq(b@));
    true
}

/// The verdict on a blob whose SHA-256 digest is `digest`.
pub fn verification_result_from_digest(
    blob_id: String,
    expected_sha256: String,
    digest: &[u8],
    blob_size: u64,
    walrus_gateway: String,
) -> (r: WalrusVerificationResult)
    ensures
        r.blob_id == blob_id,
        r.expected_sha256 == expected_sha256,
        r.computed_sha256@ == hex_encode(digest@),
        r.verified == eq_ignore_case(hex_encode(digest@), expected_sha256@),
        r.blob_size == blob_size,
        r.walrus_gateway == walrus_gateway,
{
    let computed_sha256 = encode_hex(digest);
    let verified = digests_match(computed_sha256.as_str(), expected_sha256.as_str());
    WalrusVerificationResult {
        blob_id,
        expected_sha256,
        computed_sha256,
        verified,
        blob_size,
        walrus_gateway,
    }
}

/// Hashes `content` and compares its digest with `expected_sha256`.
pub fn verify_content(
    blob_id: String,
    expected_sha256: String,
    content: &[u8],
    walrus_gateway: String,
) -> (r: WalrusVerificationResult)
    ensures
        r.blob_id == blob_id,
        r.expected_sha256 == expected_sha256,
        sha256_of(content@).len() == 32,
        r.computed_sha256@ == hex_encode(sha256_of(content@)),
        r.computed_sha256@.len() == 64,
        r.verified == eq_ignore_case(hex_encode(sha256_of(content@)), expected_sha256@),
        r.blob_size == content@.len(),
        r.walrus_gateway == walrus_gateway,
{
    let size = content.len();
    let digest = sha256(content);
    verification_result_from_digest(
        blob_id,
        expected_sha256,
        digest.as_slice(),
        size as u64,
        walrus_gateway,
    )
}

pub proof fn lemma_hex_encode_lower(b: Seq<u8>)
    ensures
        forall|i: int| 0 <= i < hex_encode(b).len() ==> is_lower_hex_char(#[trigger] hex_encode(b)[i]),
        lower_seq(hex_encode(b)) == hex_encode(b),
{
    let h = hex_encode(b);
    assert forall|i: int| 0 <= i < h.len() implies is_lower_hex_char(#[trigger] h[i]) && ascii_lower(h[i]) == h[i] by {
        assert(b[i / 2] / 16 < 16 && b[i / 2] % 16 < 16);
    }
    assert(lower_seq(h) =~= h);
}

/// The hex text of a digest, written in any mix of ASCII cases, normalises to a digest that matches the hex text of
/// the bytes it was taken from.
pub proof fn lemma_case_insensitive_match(digest: Seq<u8>, u: Seq<char>)
    requires
        digest.len() > 0,
        eq_ignore_case(u, hex_encode(digest)),
    ensures
        normalize_spec(u) is Some,
        normalize_spec(u)->Some_0 == hex_encode(digest),
        eq_ignore_case(hex_encode(digest), normalize_spec(u)->Some_0),
{
    let h = hex_encode(digest);
    lemma_hex_encode_lower(digest);
    assert(lower_seq(u).len() == u.len());
    assert forall|i: int| 0 <= i < u.len() implies #[trigger] is_hex_char(u[i]) by {
        assert(lower_seq(u)[i] == lower_seq(h)[i]);
        assert(is_lower_hex_char(h[i]));
    }
    assert(u.len() == h.len());
    lemma_hex_char_lower(u[0]);
    lemma_hex_char_lower(u[1]);
    lemma_hex_char_lower(u.last());
    lemma_trim_keeps(u);
    assert(strip_hex_prefix(u) == u);
    assert(all_hex(u));
    assert forall|i: int| 0 <= i < u.len() implies ascii_lower(#[trigger] lower_seq(u)[i]) == lower_seq(u)[i] by {
        assert(lower_seq(u)[i] == lower_seq(h)[i]);
        assert(is_lower_hex_char(h[i]));
    }
    assert(lower_seq(lower_seq(u)) =~= lower_seq(u));
    assert forall|i: int| 0 <= i < u.len() implies #[trigger] lower_seq(u)[i] == h[i] by {
        assert(lower_seq(u)[i] == lower_seq(h)[i]);
    }
    assert(lower_seq(u) =~= h);
}

/// Against an expected digest with no ASCII upper case (as every normalised
/// digest is), the verdict is negative whenever the expected text differs from
/// the hex text of the computed digest.
pub proof fn lemma_tamper_detected(digest: Seq<u8>, expected: Seq<char>)
    requires
        lower_seq(expected) == expected,
        expected != hex_encode(digest),
    ensures
        !eq_ignore_case(hex_encode(digest), expected),
{
    lemma_hex_encode_lower(digest);
}

} // verus!
