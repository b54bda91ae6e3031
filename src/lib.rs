//! An authenticated completion client: credential selection, identity-token
//! claims, reply and event-stream decoding, and the retry-once-after-refresh
//! policy, with every decision verified.
pub mod error;
pub mod flow;
pub mod json;
pub mod reply;
pub mod request;
pub mod stream;
pub mod text;
pub mod token;
