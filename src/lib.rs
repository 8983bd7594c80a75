//! Listing engine of a document-database client: request building, bounded
//! retries, cursor-driven pagination, the read-only cache gate and decoding
//! adapters, each stated over plain values and proved.
pub mod db;
pub mod error;
pub mod params;
pub mod request;
pub mod retry;
pub mod stream;
pub mod cache;
pub mod decode;
