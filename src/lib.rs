//! Keeps a DNS record, and the IP rules of an access group, in step with the
//! public IPv4 address of the machine that runs it.
pub mod client;
pub mod error;
pub mod json;
pub mod resolve;
pub mod rules;
pub mod sync;
