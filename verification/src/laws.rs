//! Properties that span several operations.

pub mod calls;
pub mod clock;
pub mod compaction;
pub mod config;
pub mod lease;
pub mod ledger;
pub mod retry;
pub mod status;
pub mod text;
pub mod token;
pub mod views;
