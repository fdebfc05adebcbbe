//! How failed model requests are retried.
//!
//! A turn is ended by the user, not by an error: cutting off a session that is
//! halfway through always costs more than waiting. What is classified here is
//! how long to wait and what to say.

use crate::clock::{lemma_calendar_holds_a_moment, time_left, within_calendar, Timestamp};
use crate::error::{CodexErr, CodexErrorDetails};
use crate::lease::{
    REJECT_QUOTA_EXCEEDED, REJECT_RETRY_LIMIT, REJECT_USAGE_LIMIT, REJECT_USAGE_NOT_INCLUDED,
};
use crate::ledger::{refused, report_account_refused, Ledger, LedgerView};
use crate::status::{pool_is_exhausted, take_pool_exhaustion_notice, PoolStatus};
use crate::text::{decimal, decimal_text, opt_str, opt_text};
use vstd::prelude::*;

verus! {

/// The least wait before another account is tried, in nanoseconds.
pub const ACCOUNT_SWAP_MIN_DELAY: u128 = 6_000_000_000;

/// The least wait of a retry without a limit, in nanoseconds.
pub const UNBOUNDED_RETRY_MIN_DELAY: u128 = 1_000_000_000;

/// The wait between two questions to a pool that is out of accounts, in
/// nanoseconds.
pub const POOL_EXHAUSTED_RETRY_DELAY: u128 = 30_000_000_000;

/// The least wait for a quota window, in nanoseconds.
pub const QUOTA_WINDOW_MIN_DELAY: u128 = 60_000_000_000;

/// The longest wait for a quota window, in nanoseconds. The reset time is an
/// estimate, and quota may come back earlier.
pub const QUOTA_WINDOW_MAX_DELAY: u128 = 600_000_000_000;

/// The longest wait of any other retry, in nanoseconds: a server may ask for
/// any delay at all.
pub const MAX_RETRY_DELAY: u128 = 60_000_000_000;

/// Which request failed.
#[derive(Clone, Copy, Debug, PartialEq, Eq, Structural)]
pub enum ResponsesStreamRequest {
    Sampling,
    RemoteCompactionV2,
}

/// What retrying depends on besides the error.
#[derive(Clone, Copy, Debug, PartialEq, Eq, Structural)]
pub struct TurnContext {
    /// The limit that the user set on retries, if any.
    pub stream_max_retries: Option<u64>,
    /// Whether the provider's credentials come from outside; `None` without
    /// managed credentials.
    pub external_auth: Option<bool>,
    /// Whether requests may travel over a web socket.
    pub responses_websocket_enabled: bool,
    /// Whether this is a debug build.
    pub debug_build: bool,
}

/// What a retry waits for.
///
/// The kind does not decide whether to retry, only how long to wait, what to
/// log and what to say once.
#[derive(Clone, Copy, Debug, PartialEq, Eq, Structural)]
pub enum RetryKind {
    /// The pool is out of accounts: somebody has to add one.
    PoolExhausted,
    /// The account was refused, and there is a pool to lease another from.
    SwapAccount,
    /// The account was refused, and there is no pool: the quota window has to
    /// reset, in so many nanoseconds.
    QuotaWindow { resets_in: Option<u128> },
    /// The model or the server is overloaded.
    Capacity,
    /// The connection failed, or the server did.
    Transient,
    /// The same request fails in the same way until somebody fixes the cause.
    Stuck,
}

/// The errors that end a turn while sampling: the user's own stop, and walls
/// that a turn cannot move. That retrying looks hopeless is not among them.
pub open spec fn ends_turn(err: CodexErr) -> bool {
    match err.details {
        CodexErrorDetails::TurnAborted => true,
        CodexErrorDetails::Interrupted => true,
        CodexErrorDetails::ContextWindowExceeded => true,
        CodexErrorDetails::SessionBudgetExceeded => true,
        CodexErrorDetails::CyberPolicy { .. } => true,
        _ => false,
    }
}

/// The errors that another account gets past. A used-up quota always is one. The
/// others are while the pool serves an account: billing, plan and congestion are
/// this account's own, and another account has its own. With the user's own
/// account in hand there is nothing to swap to.
pub open spec fn account_scoped(err: CodexErr, ledger: LedgerView) -> bool {
    match err.details {
        CodexErrorDetails::UsageLimitReached { .. } => true,
        CodexErrorDetails::QuotaExceeded => ledger.held_email is Some,
        CodexErrorDetails::UsageNotIncluded => ledger.held_email is Some,
        CodexErrorDetails::RetryLimit { status } => status == 429 && ledger.held_email is Some,
        _ => false,
    }
}

/// What the pool is told of an account that another one gets past; `None` for an
/// error that never is about the account.
pub open spec fn reason_of(err: CodexErr) -> Option<Seq<char>> {
    match err.details {
        CodexErrorDetails::UsageLimitReached { .. } => Some(REJECT_USAGE_LIMIT@),
        CodexErrorDetails::QuotaExceeded => Some(REJECT_QUOTA_EXCEEDED@),
        CodexErrorDetails::UsageNotIncluded => Some(REJECT_USAGE_NOT_INCLUDED@),
        CodexErrorDetails::RetryLimit { status } => if status == 429 {
            Some(REJECT_RETRY_LIMIT@)
        } else {
            None
        },
        _ => None,
    }
}

/// The ledger once it was noted that the account in hand was refused with `err`.
/// An error that another account does not get past is not noted.
pub open spec fn with_refusal(ledger: LedgerView, err: CodexErr) -> LedgerView {
    match reason_of(err) {
        Some(reason) if account_scoped(err, ledger) => refused(ledger, reason),
        _ => ledger,
    }
}

/// Whether the user set a limit on retries.
pub open spec fn has_ceiling(context: TurnContext) -> bool {
    context.stream_max_retries is Some
}

/// Whether another account can be leased.
pub open spec fn can_lease(context: TurnContext) -> bool {
    context.external_auth == Some(true)
}

/// Whether the turn is over.
pub open spec fn ends_turn_now(
    err: CodexErr,
    context: TurnContext,
    status: PoolStatus,
    ledger: LedgerView,
) -> bool {
    ||| ends_turn(err)
    ||| has_ceiling(context) && !err.retryable && !account_scoped(err, ledger)
        && !status.exhausted
}

/// The client errors that say "not now" rather than "not like this".
pub open spec fn retryable_client_status(status: u16) -> bool {
    status == 408 || status == 409 || status == 425 || status == 429
}

/// The errors that repeat until somebody changes something. A status code
/// counts only where it is known to speak of the request.
pub open spec fn stuck(err: CodexErr, trust_status_codes: bool) -> bool {
    match err.details {
        CodexErrorDetails::Json => true,
        CodexErrorDetails::TokioJoin => true,
        CodexErrorDetails::InternalAgentDied => true,
        CodexErrorDetails::InvalidRequest(_) => true,
        CodexErrorDetails::InvalidImageRequest => true,
        CodexErrorDetails::UnsupportedOperation => true,
        CodexErrorDetails::QuotaExceeded => true,
        CodexErrorDetails::UsageNotIncluded => true,
        CodexErrorDetails::CyberPolicy { .. } => true,
        CodexErrorDetails::AgentLimitReached => true,
        CodexErrorDetails::ThreadNotFound => true,
        CodexErrorDetails::SessionConfiguredNotFirstEvent => true,
        CodexErrorDetails::EnvVar => true,
        CodexErrorDetails::Fatal => true,
        CodexErrorDetails::Spawn => true,
        CodexErrorDetails::Sandbox => true,
        CodexErrorDetails::LandlockSandboxExecutableNotProvided => true,
        CodexErrorDetails::UnexpectedStatus => {
            trust_status_codes && (err.http_status matches Some(status) && 400 <= status < 500
                && !retryable_client_status(status))
        },
        _ => false,
    }
}

/// Whether a request is retried. Sampling without a limit ends only with the
/// turn; anything else stops at the limit, unless it waits for an account, for
/// the pool or for capacity.
pub open spec fn retry_allowed(
    err: CodexErr,
    retries: u64,
    max_retries: u64,
    request: ResponsesStreamRequest,
    unbounded: bool,
    status: PoolStatus,
    ledger: LedgerView,
) -> bool {
    if request == ResponsesStreamRequest::Sampling && unbounded {
        !ends_turn(err)
    } else {
        ||| account_scoped(err, ledger)
        ||| status.exhausted
        ||| err.details is ServerOverloaded
        ||| retries < max_retries
    }
}

/// The time until the account's quota resets, if it is known and not past.
pub open spec fn reset_wait(err: CodexErr, now: Timestamp) -> Option<u128> {
    match err.details {
        CodexErrorDetails::UsageLimitReached { resets_at: Some(moment) } => time_left(
            moment.since_epoch(),
            now.since_epoch(),
        ),
        _ => None,
    }
}

/// What a retry of `err` waits for, if the quota resets in `resets_in`
/// nanoseconds. An empty pool comes first: it is then the cause of whatever the
/// error looks like.
pub open spec fn kind_of(
    err: CodexErr,
    context: TurnContext,
    status: PoolStatus,
    ledger: LedgerView,
    resets_in: Option<u128>,
) -> RetryKind {
    if status.exhausted {
        RetryKind::PoolExhausted
    } else if account_scoped(err, ledger) {
        if can_lease(context) {
            RetryKind::SwapAccount
        } else {
            RetryKind::QuotaWindow { resets_in }
        }
    } else if err.details is ServerOverloaded {
        RetryKind::Capacity
    } else if stuck(err, !context.responses_websocket_enabled) {
        RetryKind::Stuck
    } else {
        RetryKind::Transient
    }
}

/// Whether finding out what a retry waits for tells the ledger that the account
/// in hand was refused.
pub open spec fn refuses_account(
    err: CodexErr,
    context: TurnContext,
    status: PoolStatus,
    ledger: LedgerView,
) -> bool {
    !status.exhausted && account_scoped(err, ledger) && can_lease(context)
}

/// `value`, held between `low` and `high`.
pub open spec fn clamped(value: u128, low: u128, high: u128) -> u128 {
    if value < low {
        low
    } else if value > high {
        high
    } else {
        value
    }
}

/// The smaller of two waits.
pub open spec fn at_most(value: u128, high: u128) -> u128 {
    if value > high {
        high
    } else {
        value
    }
}

impl RetryKind {
    /// How long to wait before retry number `retry_count`, given the delay
    /// `base` that the server asked for or the back-off gives.
    pub open spec fn wait(self, base: u128, retry_count: u64, max_retries: u64) -> u128 {
        match self {
            RetryKind::PoolExhausted => POOL_EXHAUSTED_RETRY_DELAY,
            RetryKind::SwapAccount => clamped(base, ACCOUNT_SWAP_MIN_DELAY, MAX_RETRY_DELAY),
            RetryKind::QuotaWindow { resets_in } => clamped(
                match resets_in {
                    Some(wait) => wait,
                    None => QUOTA_WINDOW_MAX_DELAY,
                },
                QUOTA_WINDOW_MIN_DELAY,
                QUOTA_WINDOW_MAX_DELAY,
            ),
            RetryKind::Stuck => clamped(base, UNBOUNDED_RETRY_MIN_DELAY, MAX_RETRY_DELAY),
            RetryKind::Capacity | RetryKind::Transient => if retry_count > max_retries {
                clamped(base, UNBOUNDED_RETRY_MIN_DELAY, MAX_RETRY_DELAY)
            } else {
                at_most(base, MAX_RETRY_DELAY)
            },
        }
    }

    /// Whether the first retry of a lost connection is passed over in silence.
    pub open spec fn hides_first(context: TurnContext) -> bool {
        !context.debug_build && context.responses_websocket_enabled
    }

    /// Whether retry number `retry_count` is the one that is spoken of.
    pub open spec fn reports(
        self,
        retry_count: u64,
        context: TurnContext,
        status: PoolStatus,
    ) -> bool {
        match self {
            RetryKind::PoolExhausted => status.notice_due(),
            RetryKind::Transient => retry_count == (if Self::hides_first(context) {
                2
            } else {
                1int
            }),
            _ => retry_count == 1,
        }
    }

    /// The status once it was asked whether to speak of a retry.
    pub open spec fn status_after(self, status: PoolStatus) -> PoolStatus {
        if self is PoolExhausted {
            status.when_asked()
        } else {
            status
        }
    }

    /// What is said of the retries.
    pub open spec fn text(self) -> Seq<char> {
        match self {
            RetryKind::PoolExhausted => "No account is available in the account pool. The session will not be interrupted — it keeps retrying indefinitely until an account is added or a quota window resets. Press Esc to stop."@,
            RetryKind::SwapAccount => "This account is out of quota. Leasing another account and retrying indefinitely until the pool can serve this session. Press Esc to stop."@,
            RetryKind::QuotaWindow { resets_in } => {
                let when = match resets_in {
                    Some(wait) => " in about "@ + spoken(wait),
                    None => Seq::empty(),
                };
                "This account is out of quota and no account pool is configured, so there is nothing to switch to. Retrying indefinitely until the window resets"@
                    + when + ". Press Esc to stop."@
            },
            RetryKind::Capacity => "Selected model is at capacity. Retrying indefinitely until it becomes available. Press Esc to stop."@,
            RetryKind::Transient => "Connection to the model failed. Retrying indefinitely until it recovers. Press Esc to stop."@,
            RetryKind::Stuck => "This request fails the same way every time and will not recover on its own. Retrying indefinitely so you can fix the cause without losing the session; press Esc to stop."@,
        }
    }

    /// What the log says is waited for. A lost connection has a log line of its
    /// own.
    pub open spec fn log_text(self) -> Option<Seq<char>> {
        match self {
            RetryKind::PoolExhausted => Some("account pool has nothing to lease"@),
            RetryKind::SwapAccount => Some("account is out of quota - leasing another one"@),
            RetryKind::QuotaWindow { .. } => Some(
                "account is out of quota and there is no pool to swap to"@,
            ),
            RetryKind::Capacity => Some("selected model is at capacity"@),
            RetryKind::Stuck => Some("request will not recover on its own"@),
            RetryKind::Transient => None,
        }
    }
}

/// Whole minutes in a wait.
pub open spec fn minutes_in(wait: u128) -> nat {
    (wait / 60_000_000_000) as nat
}

/// A wait in words: minutes up to ninety, then hours, rounded up.
pub open spec fn spoken(wait: u128) -> Seq<char> {
    let minutes = minutes_in(wait);
    if minutes == 0 {
        "a minute"@
    } else if minutes <= 90 {
        decimal(minutes) + " minutes"@
    } else {
        decimal((minutes + 59) / 60) + " hours"@
    }
}

/// Whether `err` ends the turn while sampling.
pub fn ends_the_turn(err: &CodexErr) -> (r: bool)
    ensures
        r == ends_turn(*err),
{
    matches!(
        &err.details,
        CodexErrorDetails::TurnAborted
            | CodexErrorDetails::Interrupted
            | CodexErrorDetails::ContextWindowExceeded
            | CodexErrorDetails::SessionBudgetExceeded
            | CodexErrorDetails::CyberPolicy { .. }
    )
}

/// Whether the turn is over. A user who set a limit on retries also gets the
/// immediate end on errors that the host does not call retryable, except where
/// another account or an account at all is what is missing.
pub fn ends_the_turn_now(
    err: &CodexErr,
    context: &TurnContext,
    status: &PoolStatus,
    ledger: &Ledger,
) -> (r: bool)
    ensures
        r == ends_turn_now(*err, *context, *status, ledger@),
{
    if ends_the_turn(err) {
        return true;
    }
    honors_ceiling(context) && !err.retryable && !is_account_scoped(err, ledger)
        && !pool_is_exhausted(status)
}

/// Whether the user set a limit on retries.
pub fn honors_ceiling(context: &TurnContext) -> (r: bool)
    ensures
        r == has_ceiling(*context),
{
    context.stream_max_retries.is_some()
}

/// Whether another account can be leased.
pub fn leases_credentials(context: &TurnContext) -> (r: bool)
    ensures
        r == can_lease(*context),
{
    match context.external_auth {
        Some(external) => external,
        None => false,
    }
}

/// Whether another account gets past `err`.
pub fn is_account_scoped(err: &CodexErr, ledger: &Ledger) -> (r: bool)
    ensures
        r == account_scoped(*err, ledger@),
{
    match &err.details {
        CodexErrorDetails::UsageLimitReached { .. } => true,
        CodexErrorDetails::QuotaExceeded
        | CodexErrorDetails::UsageNotIncluded => ledger.held_email.is_some(),
        CodexErrorDetails::RetryLimit { status } => *status == 429 && ledger.held_email.is_some(),
        _ => false,
    }
}

/// What the pool is told of an account that another one gets past. Each failure
/// has a reason of its own: what to do about it is for the pool to decide.
pub fn reject_reason(err: &CodexErr) -> (r: Option<&'static str>)
    ensures
        opt_str(r) == reason_of(*err),
{
    match &err.details {
        CodexErrorDetails::UsageLimitReached { .. } => Some(REJECT_USAGE_LIMIT),
        CodexErrorDetails::QuotaExceeded => Some(REJECT_QUOTA_EXCEEDED),
        CodexErrorDetails::UsageNotIncluded => Some(REJECT_USAGE_NOT_INCLUDED),
        CodexErrorDetails::RetryLimit { status } => if *status == 429 {
            Some(REJECT_RETRY_LIMIT)
        } else {
            None
        },
        _ => None,
    }
}

/// Notes that the account in hand was refused with `err`, where another account
/// gets past it.
pub(crate) fn note_refusal(err: &CodexErr, ledger: &mut Ledger)
    ensures
        final(ledger)@ == with_refusal(old(ledger)@, *err),
{
    if is_account_scoped(err, ledger) {
        if let Some(reason) = reject_reason(err) {
            report_account_refused(ledger, reason);
        }
    }
}

/// Whether `err` repeats until somebody changes something. Over a web socket a
/// status code may speak of the channel alone, and does not count.
pub fn will_not_fix_itself(err: &CodexErr, trust_status_codes: bool) -> (r: bool)
    ensures
        r == stuck(*err, trust_status_codes),
{
    match &err.details {
        CodexErrorDetails::Json
        | CodexErrorDetails::TokioJoin
        | CodexErrorDetails::InternalAgentDied
        | CodexErrorDetails::InvalidRequest(_)
        | CodexErrorDetails::InvalidImageRequest
        | CodexErrorDetails::UnsupportedOperation
        | CodexErrorDetails::QuotaExceeded
        | CodexErrorDetails::UsageNotIncluded
        | CodexErrorDetails::CyberPolicy { .. }
        | CodexErrorDetails::AgentLimitReached
        | CodexErrorDetails::ThreadNotFound
        | CodexErrorDetails::SessionConfiguredNotFirstEvent
        | CodexErrorDetails::EnvVar
        | CodexErrorDetails::Fatal
        | CodexErrorDetails::Spawn
        | CodexErrorDetails::Sandbox
        | CodexErrorDetails::LandlockSandboxExecutableNotProvided => true,
        CodexErrorDetails::UnexpectedStatus => match err.http_status {
            Some(status) => trust_status_codes && 400 <= status && status < 500 && !(status == 408
                || status == 409 || status == 425 || status == 429),
            None => false,
        },
        _ => false,
    }
}

/// Whether a request is retried. `unbounded` says that the user set no limit,
/// or that the limit does not count.
pub fn retry_is_allowed(
    err: &CodexErr,
    retries: u64,
    max_retries: u64,
    request: ResponsesStreamRequest,
    unbounded: bool,
    status: &PoolStatus,
    ledger: &Ledger,
) -> (r: bool)
    ensures
        r == retry_allowed(*err, retries, max_retries, request, unbounded, *status, ledger@),
{
    match request {
        ResponsesStreamRequest::Sampling if unbounded => !ends_the_turn(err),
        _ => is_account_scoped(err, ledger) || pool_is_exhausted(status) || matches!(
            &err.details,
            CodexErrorDetails::ServerOverloaded
        ) || retries < max_retries,
    }
}

/// The time until the account's quota resets, seen at the moment `now`.
pub fn quota_resets_in_at(err: &CodexErr, now: Timestamp) -> (r: Option<u128>)
    ensures
        r == reset_wait(*err, now),
{
    match &err.details {
        CodexErrorDetails::UsageLimitReached { resets_at } => match resets_at {
            Some(moment) => moment.remaining(now),
            None => None,
        },
        _ => None,
    }
}

/// The time until the account's quota resets, by the system clock. The clock is
/// read only where there is a time to measure.
pub fn quota_resets_in(err: &CodexErr) -> (r: Option<u128>)
    ensures
        exists|now: Timestamp|
            within_calendar(now.since_epoch()) && r == #[trigger] reset_wait(*err, now),
        (match err.details {
            CodexErrorDetails::UsageLimitReached { resets_at } => resets_at is None,
            _ => true,
        }) ==> r is None,
        err.details matches CodexErrorDetails::UsageLimitReached { resets_at: Some(_) } ==> exists|
            now: Timestamp,
        |
            now.is_present() && r == #[trigger] reset_wait(*err, now),
{
    match &err.details {
        CodexErrorDetails::UsageLimitReached { resets_at: Some(_) } => {
            let now = Timestamp::now();
            quota_resets_in_at(err, now)
        },
        _ => {
            proof {
                let now = lemma_calendar_holds_a_moment();
                assert(reset_wait(*err, now) is None);
            }
            None
        },
    }
}

/// A wait in words.
pub fn humanize(wait: u128) -> (r: String)
    ensures
        r@ == spoken(wait),
{
    let minutes: u128 = wait / 60_000_000_000;
    if minutes == 0 {
        return "a minute".to_owned();
    }
    if minutes <= 90 {
        return decimal_text(minutes).concat(" minutes");
    }
    decimal_text((minutes + 59) / 60).concat(" hours")
}

/// The ledger once it was found out what a retry waits for.
pub open spec fn ledger_after(
    ledger: LedgerView,
    err: CodexErr,
    context: TurnContext,
    status: PoolStatus,
) -> LedgerView {
    if refuses_account(err, context, status, ledger) {
        with_refusal(ledger, err)
    } else {
        ledger
    }
}

/// The time until the account's quota resets, by the system clock, where that is
/// what a retry waits for. The clock is not read otherwise.
fn quota_window(
    err: &CodexErr,
    context: &TurnContext,
    status: &PoolStatus,
    ledger: &Ledger,
) -> (r: Option<u128>)
    ensures
        exists|now: Timestamp|
            within_calendar(now.since_epoch()) && kind_of(*err, *context, *status, ledger@, r)
                == kind_of(*err, *context, *status, ledger@, #[trigger] reset_wait(*err, now)),
        kind_of(*err, *context, *status, ledger@, r) is QuotaWindow && (err.details
            matches CodexErrorDetails::UsageLimitReached { resets_at: Some(_) }) ==> exists|
            now: Timestamp,
        |
            now.is_present() && r == #[trigger] reset_wait(*err, now),
{
    if !pool_is_exhausted(status) && is_account_scoped(err, ledger) && !leases_credentials(
        context,
    ) {
        quota_resets_in(err)
    } else {
        proof {
            let now = lemma_calendar_holds_a_moment();
            assert(kind_of(*err, *context, *status, ledger@, None) == kind_of(
                *err,
                *context,
                *status,
                ledger@,
                reset_wait(*err, now),
            ));
        }
        None
    }
}

impl RetryKind {
    /// What a retry of `err` waits for, if the quota resets in `resets_in`
    /// nanoseconds. Where another account can be leased, the pool is to be told
    /// that this one was refused; it would hand it out again otherwise.
    pub fn of_given(
        err: &CodexErr,
        context: &TurnContext,
        status: &PoolStatus,
        ledger: &mut Ledger,
        resets_in: Option<u128>,
    ) -> (r: Self)
        ensures
            r == kind_of(*err, *context, *status, old(ledger)@, resets_in),
            final(ledger)@ == ledger_after(old(ledger)@, *err, *context, *status),
    {
        if pool_is_exhausted(status) {
            return RetryKind::PoolExhausted;
        }
        if is_account_scoped(err, ledger) {
            return if leases_credentials(context) {
                note_refusal(err, ledger);
                RetryKind::SwapAccount
            } else {
                RetryKind::QuotaWindow { resets_in }
            };
        }
        let trust_status_codes = !context.responses_websocket_enabled;
        match &err.details {
            CodexErrorDetails::ServerOverloaded => RetryKind::Capacity,
            _ => if will_not_fix_itself(err, trust_status_codes) {
                RetryKind::Stuck
            } else {
                RetryKind::Transient
            },
        }
    }

    /// What a retry of `err` waits for, by the system clock. The clock is read
    /// only where the answer depends on it.
    pub fn of(
        err: &CodexErr,
        context: &TurnContext,
        status: &PoolStatus,
        ledger: &mut Ledger,
    ) -> (r: Self)
        ensures
            exists|now: Timestamp|
                within_calendar(now.since_epoch()) && r == kind_of(
                    *err,
                    *context,
                    *status,
                    old(ledger)@,
                    #[trigger] reset_wait(*err, now),
                ),
            (err.details matches CodexErrorDetails::UsageLimitReached { resets_at: Some(_) }) ==> (r
                matches RetryKind::QuotaWindow { resets_in } ==> exists|now: Timestamp|
                now.is_present() && resets_in == #[trigger] reset_wait(*err, now)),
            final(ledger)@ == ledger_after(old(ledger)@, *err, *context, *status),
    {
        let resets_in = quota_window(err, context, status, ledger);
        Self::of_given(err, context, status, ledger, resets_in)
    }

    /// How long to wait before retry number `retry_count`.
    pub fn delay(self, base: u128, retry_count: u64, max_retries: u64) -> (r: u128)
        ensures
            r == self.wait(base, retry_count, max_retries),
    {
        match self {
            RetryKind::PoolExhausted => POOL_EXHAUSTED_RETRY_DELAY,
            RetryKind::SwapAccount => clamp(base, ACCOUNT_SWAP_MIN_DELAY, MAX_RETRY_DELAY),
            RetryKind::QuotaWindow { resets_in } => clamp(
                match resets_in {
                    Some(wait) => wait,
                    None => QUOTA_WINDOW_MAX_DELAY,
                },
                QUOTA_WINDOW_MIN_DELAY,
                QUOTA_WINDOW_MAX_DELAY,
            ),
            RetryKind::Stuck => clamp(base, UNBOUNDED_RETRY_MIN_DELAY, MAX_RETRY_DELAY),
            RetryKind::Capacity | RetryKind::Transient => if retry_count > max_retries {
                clamp(base, UNBOUNDED_RETRY_MIN_DELAY, MAX_RETRY_DELAY)
            } else {
                clamp(base, 0, MAX_RETRY_DELAY)
            },
        }
    }

    /// Whether to speak of retry number `retry_count`. Each kind is spoken of
    /// once; an empty pool once for all sessions of the process.
    pub fn should_report(
        self,
        retry_count: u64,
        context: &TurnContext,
        status: &mut PoolStatus,
    ) -> (r: bool)
        ensures
            r == self.reports(retry_count, *context, *old(status)),
            *final(status) == self.status_after(*old(status)),
    {
        match self {
            RetryKind::PoolExhausted => take_pool_exhaustion_notice(status),
            RetryKind::Transient => {
                let hide_first = !context.debug_build && context.responses_websocket_enabled;
                if hide_first {
                    retry_count == 2
                } else {
                    retry_count == 1
                }
            },
            _ => retry_count == 1,
        }
    }

    /// What is said of the retries.
    pub fn message(self) -> (r: String)
        ensures
            r@ == self.text(),
    {
        match self {
            RetryKind::PoolExhausted => "No account is available in the account pool. The session will not be interrupted — it keeps retrying indefinitely until an account is added or a quota window resets. Press Esc to stop.".to_owned(),
            RetryKind::SwapAccount => "This account is out of quota. Leasing another account and retrying indefinitely until the pool can serve this session. Press Esc to stop.".to_owned(),
            RetryKind::QuotaWindow { resets_in } => {
                let when = match resets_in {
                    Some(wait) => " in about ".to_owned().concat(humanize(wait).as_str()),
                    None => String::new(),
                };
                "This account is out of quota and no account pool is configured, so there is nothing to switch to. Retrying indefinitely until the window resets".to_owned().concat(when.as_str()).concat(". Press Esc to stop.")
            },
            RetryKind::Capacity => "Selected model is at capacity. Retrying indefinitely until it becomes available. Press Esc to stop.".to_owned(),
            RetryKind::Transient => "Connection to the model failed. Retrying indefinitely until it recovers. Press Esc to stop.".to_owned(),
            RetryKind::Stuck => "This request fails the same way every time and will not recover on its own. Retrying indefinitely so you can fix the cause without losing the session; press Esc to stop.".to_owned(),
        }
    }

    /// What the log says is waited for. A lost connection has a log line of its
    /// own.
    pub fn waiting_for(self) -> (r: Option<&'static str>)
        ensures
            opt_str(r) == self.log_text(),
    {
        match self {
            RetryKind::PoolExhausted => Some("account pool has nothing to lease"),
            RetryKind::SwapAccount => Some("account is out of quota - leasing another one"),
            RetryKind::QuotaWindow { .. } => Some(
                "account is out of quota and there is no pool to swap to",
            ),
            RetryKind::Capacity => Some("selected model is at capacity"),
            RetryKind::Stuck => Some("request will not recover on its own"),
            RetryKind::Transient => None,
        }
    }
}

/// `value`, held between `low` and `high`.
fn clamp(value: u128, low: u128, high: u128) -> (r: u128)
    requires
        low <= high,
    ensures
        r == clamped(value, low, high),
{
    if value < low {
        low
    } else if value > high {
        high
    } else {
        value
    }
}

/// The delay from which a retry's wait is worked out.
#[derive(Clone, Copy, Debug, PartialEq, Eq, Structural)]
pub enum BaseDelay {
    /// The server asked for so many nanoseconds.
    Asked(u128),
    /// The back-off of the given attempt.
    BackOff(u64),
}

/// What becomes of a failed request.
#[derive(Clone, Copy, Debug, PartialEq, Eq, Structural)]
pub enum RetryDecision {
    /// The error goes to the caller.
    GiveUp,
    /// The request is sent anew over the other transport.
    SwitchedTransport,
    /// The request is retried. Without a kind the user's own limit is in force.
    Retry { kind: Option<RetryKind>, base: BaseDelay },
}

/// How a retry is carried out.
#[derive(Debug, PartialEq, Eq)]
pub struct RetryAction {
    /// How long to wait, in nanoseconds.
    pub delay: u128,
    /// What to say first.
    pub notice: Option<String>,
}

/// Whether another transport is worth a try: the limit is reached, and the
/// error may be the channel's.
pub open spec fn fallback_wanted(err: CodexErr, retries: u64, max_retries: u64) -> bool {
    (err.retryable || err.details is ServerOverloaded) && retries >= max_retries
}

/// Whether a retry goes by kinds, and not by the user's own limit.
pub open spec fn goes_by_kind(
    err: CodexErr,
    context: TurnContext,
    status: PoolStatus,
    ledger: LedgerView,
) -> bool {
    account_scoped(err, ledger) || status.exhausted || !has_ceiling(context)
}

/// The attempt whose back-off is waited for.
pub open spec fn backoff_attempt(retries: u64, max_retries: u64) -> u64 {
    let ceiling = if max_retries < 1 {
        1u64
    } else {
        max_retries
    };
    if retries < ceiling {
        retries
    } else {
        ceiling
    }
}

/// The number of retries, counting one more.
pub open spec fn counted(retries: u64) -> u64 {
    if retries == u64::MAX {
        retries
    } else {
        (retries + 1) as u64
    }
}

/// What becomes of a request that failed with `err` after `retries` retries, if
/// the quota resets in `resets_in` nanoseconds and `switched` says whether the
/// transport could be changed.
pub open spec fn decision(
    err: CodexErr,
    retries: u64,
    max_retries: u64,
    switched: bool,
    context: TurnContext,
    request: ResponsesStreamRequest,
    status: PoolStatus,
    ledger: LedgerView,
    resets_in: Option<u128>,
) -> RetryDecision {
    let by_kind = goes_by_kind(err, context, status, ledger);
    if switched && fallback_wanted(err, retries, max_retries) {
        RetryDecision::SwitchedTransport
    } else if retry_allowed(err, retries, max_retries, request, by_kind, status, ledger) {
        RetryDecision::Retry {
            kind: if by_kind {
                Some(kind_of(err, context, status, ledger, resets_in))
            } else {
                None
            },
            base: match err.retry_delay {
                Some(asked) => BaseDelay::Asked(asked),
                None => BaseDelay::BackOff(backoff_attempt(counted(retries), max_retries)),
            },
        }
    } else {
        RetryDecision::GiveUp
    }
}

impl RetryDecision {
    /// The number of retries after this decision. Another transport starts
    /// anew.
    pub open spec fn retries_after(self, retries: u64) -> u64 {
        match self {
            RetryDecision::GiveUp => retries,
            RetryDecision::SwitchedTransport => 0,
            RetryDecision::Retry { .. } => counted(retries),
        }
    }
}

/// The ledger after it was decided what becomes of a failed request.
pub open spec fn ledger_after_decision(
    ledger: LedgerView,
    err: CodexErr,
    retries: u64,
    max_retries: u64,
    switched: bool,
    context: TurnContext,
    status: PoolStatus,
) -> LedgerView {
    if switched && fallback_wanted(err, retries, max_retries) {
        ledger
    } else {
        ledger_after(ledger, err, context, status)
    }
}

/// What is said of a retry under the user's own limit. The first one may pass
/// in silence.
pub open spec fn ceiling_notice(
    retry_count: u64,
    max_retries: u64,
    context: TurnContext,
) -> Option<Seq<char>> {
    if retry_count > 1 || context.debug_build || !context.responses_websocket_enabled {
        Some(
            "Reconnecting... "@ + decimal(retry_count as nat) + "/"@ + decimal(max_retries as nat),
        )
    } else {
        None
    }
}

/// Whether another transport is worth a try before the request is retried.
pub fn wants_fallback_transport(err: &CodexErr, retries: u64, max_retries: u64) -> (r: bool)
    ensures
        r == fallback_wanted(*err, retries, max_retries),
{
    (err.retryable || matches!(&err.details, CodexErrorDetails::ServerOverloaded)) && retries
        >= max_retries
}

/// What is said when the transport is changed because of an error.
pub fn fallback_notice(rendered_error: &str) -> (r: String)
    ensures
        r@ == "Falling back from WebSockets to HTTPS transport. "@ + rendered_error@,
{
    "Falling back from WebSockets to HTTPS transport. ".to_owned().concat(rendered_error)
}

/// Decides what becomes of a request that failed with `err` after `retries`
/// retries, if the quota resets in `resets_in` nanoseconds. `switched` says
/// whether the transport could be changed; it counts only where
/// [`wants_fallback_transport`] holds.
pub fn handle_stream_error_given(
    retries: &mut u64,
    max_retries: u64,
    err: &CodexErr,
    switched: bool,
    context: &TurnContext,
    request: ResponsesStreamRequest,
    status: &PoolStatus,
    ledger: &mut Ledger,
    resets_in: Option<u128>,
) -> (r: RetryDecision)
    ensures
        r == decision(
            *err,
            *old(retries),
            max_retries,
            switched,
            *context,
            request,
            *status,
            old(ledger)@,
            resets_in,
        ),
        *final(retries) == r.retries_after(*old(retries)),
        final(ledger)@ == ledger_after_decision(
            old(ledger)@,
            *err,
            *old(retries),
            max_retries,
            switched,
            *context,
            *status,
        ),
{
    if switched && wants_fallback_transport(err, *retries, max_retries) {
        *retries = 0;
        return RetryDecision::SwitchedTransport;
    }
    let unconditional = is_account_scoped(err, ledger) || pool_is_exhausted(status);
    let kind = if unconditional || !honors_ceiling(context) {
        Some(RetryKind::of_given(err, context, status, ledger, resets_in))
    } else {
        None
    };
    if !retry_is_allowed(err, *retries, max_retries, request, kind.is_some(), status, ledger) {
        return RetryDecision::GiveUp;
    }
    let retry_count: u64 = retries.saturating_add(1);
    *retries = retry_count;
    let base = match err.retry_delay {
        Some(asked) => BaseDelay::Asked(asked),
        None => {
            let ceiling: u64 = if max_retries < 1 {
                1
            } else {
                max_retries
            };
            BaseDelay::BackOff(
                if retry_count < ceiling {
                    retry_count
                } else {
                    ceiling
                },
            )
        },
    };
    RetryDecision::Retry { kind, base }
}

/// Decides what becomes of a request that failed with `err` after `retries`
/// retries, by the system clock. `switched` says whether the transport could be
/// changed; it counts only where [`wants_fallback_transport`] holds.
pub fn handle_retryable_response_stream_error(
    retries: &mut u64,
    max_retries: u64,
    err: &CodexErr,
    switched: bool,
    context: &TurnContext,
    request: ResponsesStreamRequest,
    status: &PoolStatus,
    ledger: &mut Ledger,
) -> (r: RetryDecision)
    ensures
        exists|now: Timestamp|
            within_calendar(now.since_epoch()) && r == decision(
                *err,
                *old(retries),
                max_retries,
                switched,
                *context,
                request,
                *status,
                old(ledger)@,
                #[trigger] reset_wait(*err, now),
            ),
        (err.details matches CodexErrorDetails::UsageLimitReached { resets_at: Some(_) }) ==> (r
            matches RetryDecision::Retry { kind: Some(RetryKind::QuotaWindow { resets_in }), .. }
            ==> exists|now: Timestamp|
            now.is_present() && resets_in == #[trigger] reset_wait(*err, now)),
        *final(retries) == r.retries_after(*old(retries)),
        final(ledger)@ == ledger_after_decision(
            old(ledger)@,
            *err,
            *old(retries),
            max_retries,
            switched,
            *context,
            *status,
        ),
{
    let resets_in = quota_window(err, context, status, ledger);
    handle_stream_error_given(
        retries,
        max_retries,
        err,
        switched,
        context,
        request,
        status,
        ledger,
        resets_in,
    )
}

/// Works out how a retry is carried out, once its base delay is known.
pub fn schedule_retry(
    kind: Option<RetryKind>,
    base: u128,
    retry_count: u64,
    max_retries: u64,
    context: &TurnContext,
    status: &mut PoolStatus,
) -> (r: RetryAction)
    ensures
        match kind {
            Some(kind) => {
                &&& r.delay == kind.wait(base, retry_count, max_retries)
                &&& opt_text(r.notice) == (if kind.reports(retry_count, *context, *old(status)) {
                    Some(kind.text())
                } else {
                    None
                })
                &&& *final(status) == kind.status_after(*old(status))
            },
            None => {
                &&& r.delay == base
                &&& opt_text(r.notice) == ceiling_notice(retry_count, max_retries, *context)
                &&& *final(status) == *old(status)
            },
        },
{
    match kind {
        Some(kind) => {
            let delay: u128 = kind.delay(base, retry_count, max_retries);
            let notice = if kind.should_report(retry_count, context, status) {
                Some(kind.message())
            } else {
                None
            };
            RetryAction { delay, notice }
        },
        None => {
            let notice = if retry_count > 1 || context.debug_build
                || !context.responses_websocket_enabled {
                Some(
                    "Reconnecting... ".to_owned().concat(
                        decimal_text(retry_count as u128).as_str(),
                    ).concat("/").concat(decimal_text(max_retries as u128).as_str()),
                )
            } else {
                None
            };
            RetryAction { delay: base, notice }
        },
    }
}

} // verus!
