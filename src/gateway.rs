use vstd::prelude::*;
use crate::hexnorm::hex_digit_char;
use crate::types::OracleError;

verus! {

/// The gateway used where a request names none.
pub const DEFAULT_WALRUS_GATEWAY: &'static str = "https://api.walrus.xyz";

pub open spec fn default_gateway_seq() -> Seq<char> {
    DEFAULT_WALRUS_GATEWAY@
}

/// `s` without any trailing `/`.
pub open spec fn trim_trailing_slashes(s: Seq<char>) -> Seq<char>
    decreases s.len(),
{
    if s.len() > 0 && s.last() == '/' {
        trim_trailing_slashes(s.drop_last())
    } else {
        s
    }
}

/// The gateway base a request is served from.
pub open spec fn gateway_spec(requested: Option<Seq<char>>) -> Seq<char> {
    match requested {
        Some(g) => trim_trailing_slashes(g),
        None => trim_trailing_slashes(default_gateway_seq()),
    }
}

/// The address of blob `id` under `gateway`.
pub open spec fn blob_url_spec(gateway: Seq<char>, id: Seq<char>) -> Seq<char> {
    gateway + "/v1/blobs/"@ + id
}

/// The decimal text of `n`.
pub open spec fn decimal_seq(n: nat) -> Seq<char>
    decreases n,
{
    if n < 10 {
        seq![hex_digit_char(n)]
    } else {
        decimal_seq(n / 10).push(hex_digit_char(n % 10))
    }
}

/// Whether an HTTP status code reports success.
pub open spec fn is_success_status(status: u16) -> bool {
    200 <= status && status <= 299
}

pub open spec fn status_message(gateway: Seq<char>, status: u16, id: Seq<char>) -> Seq<char> {
    "Walrus gateway "@ + gateway + " returned "@ + decimal_seq(status as nat) + " for blob "@ + id
}

pub open spec fn download_message(gateway: Seq<char>, id: Seq<char>, detail: Seq<char>) -> Seq<char> {
    "Failed to download Walrus blob "@ + id + " from gateway "@ + gateway + ": "@ + detail
}

pub open spec fn read_message(gateway: Seq<char>, id: Seq<char>, detail: Seq<char>) -> Seq<char> {
    "Failed to read Walrus blob "@ + id + " from gateway "@ + gateway + ": "@ + detail
}

pub open spec fn clock_message(detail: Seq<char>) -> Seq<char> {
    "Invalid system time: "@ + detail
}

fn trim_slashes(s: &str) -> (r: &str)
    ensures
        r@ == trim_trailing_slashes(s@),
{
    let mut end = s.unicode_len();
    assert(s@.subrange(0, s@.len() as int) =~= s@);
    while end > 0 && s.get_char(end - 1) == '/'
        invariant
            end <= s@.len(),
            trim_trailing_slashes(s@.subrange(0, end as int)) == trim_trailing_slashes(s@),
        decreases end,
    {
        assert(s@.subrange(0, end as int).drop_last() =~= s@.subrange(0, end - 1));
        end = end - 1;
    }
    s.substring_char(0, end)
}

/// The gateway base for a request: the one it names, else the default, with
/// trailing `/` removed.
pub fn resolve_gateway(requested: &Option<String>) -> (r: String)
    ensures
        r@ == gateway_spec(
            match requested {
                Some(g) => Some(g@),
                None => None,
            },
        ),
{
    match requested {
        Some(g) => String::from_str(trim_slashes(g.as_str())),
        None => String::from_str(trim_slashes(DEFAULT_WALRUS_GATEWAY)),
    }
}

/// The address of blob `blob_id` under `gateway`.
pub fn blob_url(gateway: &str, blob_id: &str) -> (r: String)
    ensures
        r@ == blob_url_spec(gateway@, blob_id@),
{
    String::from_str(gateway).concat("/v1/blobs/").concat(blob_id)
}

/// The decimal text of `n`.
pub fn decimal_string(n: u64) -> (r: String)
    ensures
        r@ == decimal_seq(n as nat),
    decreases n,
{
    if n < 10 {
        String::from_str(crate::hexnorm::hex_digit_str(n as u8))
    } else {
        decimal_string(n / 10).concat(crate::hexnorm::hex_digit_str((n % 10) as u8))
    }
}

/// Accepts a success status from the gateway; any other is a retrieval
/// failure naming the gateway, the status code and the blob.
pub fn check_status(gateway: &str, blob_id: &str, status: u16) -> (r: Result<(), OracleError>)
    ensures
        r is Ok <==> is_success_status(status),
        r is Err ==> r->Err_0 == OracleError::RetrievalFailed(r->Err_0->RetrievalFailed_0)
            && r->Err_0->RetrievalFailed_0@ == status_message(gateway@, status, blob_id@),
{
    if 200 <= status && status <= 299 {
        Ok(())
    } else {
        let m = String::from_str("Walrus gateway ").concat(gateway).concat(" returned ").concat(
            decimal_string(status as u64).as_str(),
        ).concat(" for blob ").concat(blob_id);
        Err(OracleError::RetrievalFailed(m))
    }
}

/// The failure of a request that never got a response.
pub fn download_failed(gateway: &str, blob_id: &str, detail: &str) -> (e: OracleError)
    ensures
        e is RetrievalFailed,
        e->RetrievalFailed_0@ == download_message(gateway@, blob_id@, detail@),
{
    OracleError::RetrievalFailed(
        String::from_str("Failed to download Walrus blob ").concat(blob_id).concat(
            " from gateway ",
        ).concat(gateway).concat(": ").concat(detail),
    )
}

/// The failure of reading a response's body.
pub fn read_failed(gateway: &str, blob_id: &str, detail: &str) -> (e: OracleError)
    ensures
        e is RetrievalFailed,
        e->RetrievalFailed_0@ == read_message(gateway@, blob_id@, detail@),
{
    OracleError::RetrievalFailed(
        String::from_str("Failed to read Walrus blob ").concat(blob_id).concat(
            " from gateway ",
        ).concat(gateway).concat(": ").concat(detail),
    )
}

/// The failure of reading the clock.
pub fn clock_failed(detail: &str) -> (e: OracleError)
    ensures
        e is ClockError,
        e->ClockError_0@ == clock_message(detail@),
{
    OracleError::ClockError(String::from_str("Invalid system time: ").concat(detail))
}

} // verus!
