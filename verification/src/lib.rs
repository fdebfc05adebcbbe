//! Client side of an account pool: leasing credentials, accounting for usage,
//! and deciding how failed requests are retried.

pub mod auth;
pub mod clock;
pub mod compaction;
pub mod config;
pub mod error;
pub mod http;
pub mod laws;
pub mod lease;
pub mod ledger;
pub mod personal_access_token;
pub mod reading;
pub mod retry;
pub mod status;
pub mod text;
