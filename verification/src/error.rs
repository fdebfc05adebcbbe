//! The errors of a model request, as far as retrying depends on them.

use crate::clock::Timestamp;
use vstd::prelude::*;

verus! {

/// What went wrong.
#[derive(Debug, PartialEq, Eq)]
pub enum CodexErrorDetails {
    /// The user stopped the turn.
    TurnAborted,
    /// The user interrupted the turn.
    Interrupted,
    ContextWindowExceeded,
    SessionBudgetExceeded,
    CyberPolicy { message: String },
    /// The account's quota is used up; it resets at the given moment.
    UsageLimitReached { resets_at: Option<Timestamp> },
    /// The service turned the request down too often; 429 is its own answer,
    /// and a transport that gave up by itself says 500.
    RetryLimit { status: u16 },
    ServerOverloaded,
    InternalServerError,
    Stream(String),
    Timeout,
    RequestTimeout,
    UnexpectedStatus,
    Json,
    TokioJoin,
    InternalAgentDied,
    InvalidRequest(String),
    InvalidImageRequest,
    UnsupportedOperation,
    QuotaExceeded,
    UsageNotIncluded,
    AgentLimitReached,
    ThreadNotFound,
    SessionConfiguredNotFirstEvent,
    EnvVar,
    Fatal,
    Spawn,
    Sandbox,
    LandlockSandboxExecutableNotProvided,
    /// Any other failure.
    Other,
}

/// An error of a model request, with what the host knows about it.
#[derive(Debug, PartialEq, Eq)]
pub struct CodexErr {
    pub details: CodexErrorDetails,
    /// Whether the host's own classification calls it retryable.
    pub retryable: bool,
    /// The delay that the server asked for, in nanoseconds.
    pub retry_delay: Option<u128>,
    /// The HTTP status that came with it.
    pub http_status: Option<u16>,
}

} // verus!
