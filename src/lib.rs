//! Content-integrity oracle: canonicalises a caller's expected digest, checks
//! fetched content against it and frames the verdict for signing.

pub mod types;
pub mod hexnorm;
pub mod digest;
pub mod gateway;
pub mod envelope;
pub mod pipeline;
