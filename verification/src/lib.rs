//! Authentication of outbound HTTP requests to a cloud provider's API
//! with a derived-key HMAC signature scheme: canonical request
//! construction, four-stage HMAC-SHA256 key derivation, signature
//! computation, assembly of the fully signed request, and decoding of
//! the JSON response envelope. Transports hand a prepared request out
//! and the response body text back; everything in between is specified
//! and verified here.

pub mod crypto;
pub mod errors;
pub mod laws;
pub mod query;
pub mod time;
pub mod visual;
pub mod volce;
