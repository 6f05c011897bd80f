use vstd::prelude::*;

verus! {

/// What a caller asks the oracle to check.
#[derive(Debug)]
pub struct WalrusVerificationRequest {
    pub blob_id: String,
    pub expected_sha256: String,
    pub walrus_gateway: Option<String>,
}

/// The verdict on one blob.
#[derive(Debug, Clone)]
pub struct WalrusVerificationResult {
    pub blob_id: String,
    pub expected_sha256: String,
    pub computed_sha256: String,
    pub verified: bool,
    pub blob_size: u64,
    pub walrus_gateway: String,
}

/// The one error of a request; each variant carries a message.
#[derive(Debug)]
pub enum OracleError {
    InvalidInput(String),
    RetrievalFailed(String),
    ClockError(String),
}

} // verus!
