//! Safe access to a structured event-log service: the buffer-growth protocol,
//! handle ownership, status classification and the typed variant decoder.
//!
//! The service itself is reached by the caller; this crate decides what each
//! answer of the service means and what to do next.
pub mod bytes;
pub mod channel_iter;
pub mod errors;
pub mod event_iter;
pub mod fetch;
pub mod handle;
pub mod pub_metadata;
pub mod pub_metadata_fetcher;
pub mod pub_metadata_fields;
pub mod renderer;
pub mod text;
pub mod utils;
pub mod variant;
