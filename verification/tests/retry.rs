use codext_pool::clock::Timestamp;
use codext_pool::error::{CodexErr, CodexErrorDetails};
use codext_pool::lease::REJECT_USAGE_LIMIT;
use codext_pool::ledger::{refusal_reason, set_held_account, Ledger};
use codext_pool::retry::{
    ends_the_turn, ends_the_turn_now, fallback_notice, handle_retryable_response_stream_error,
    handle_stream_error_given, honors_ceiling, humanize, is_account_scoped, leases_credentials,
    quota_resets_in, quota_resets_in_at, reject_reason, retry_is_allowed, schedule_retry,
    wants_fallback_transport, will_not_fix_itself, BaseDelay, ResponsesStreamRequest, RetryAction, RetryDecision, RetryKind,
    TurnContext,
};
use codext_pool::status::{mark_pool_exhausted, mark_pool_serving, PoolStatus};

const SECOND: u128 = 1_000_000_000;
const MINUTE: u128 = 60 * SECOND;

fn error(details: CodexErrorDetails) -> CodexErr {
    CodexErr { details, retryable: false, retry_delay: None, http_status: None }
}

fn http_error(status: u16) -> CodexErr {
    CodexErr { http_status: Some(status), ..error(CodexErrorDetails::UnexpectedStatus) }
}

fn stream_error(text: &str) -> CodexErr {
    CodexErr { retryable: true, ..error(CodexErrorDetails::Stream(text.to_string())) }
}

fn usage_limit(resets_at: Option<Timestamp>) -> CodexErr {
    error(CodexErrorDetails::UsageLimitReached { resets_at })
}

fn context() -> TurnContext {
    TurnContext {
        stream_max_retries: None,
        external_auth: None,
        responses_websocket_enabled: true,
        debug_build: false,
    }
}

fn exhausted() -> PoolStatus {
    let mut status = PoolStatus::new();
    assert!(mark_pool_exhausted(&mut status));
    status
}

fn sampling_retries(err: &CodexErr) -> bool {
    retry_is_allowed(err, 500, 5, ResponsesStreamRequest::Sampling, true, &PoolStatus::new(), &Ledger::new())
}

/// Sampling has no limit: to cut off a session halfway always costs more than to
/// wait.
#[test]
fn a_sampling_request_keeps_retrying_past_every_limit() {
    for err in [
        error(CodexErrorDetails::ServerOverloaded),
        error(CodexErrorDetails::InternalServerError),
        stream_error("disconnected"),
        error(CodexErrorDetails::Timeout),
        error(CodexErrorDetails::QuotaExceeded),
        error(CodexErrorDetails::UsageNotIncluded),
        http_error(404),
    ] {
        assert!(sampling_retries(&err), "{err:?} should keep retrying");
    }
}

/// The ways out, none of which is that retrying looks hopeless.
#[test]
fn only_the_user_and_the_hard_walls_end_a_turn() {
    for err in [
        error(CodexErrorDetails::TurnAborted),
        error(CodexErrorDetails::Interrupted),
        error(CodexErrorDetails::ContextWindowExceeded),
        error(CodexErrorDetails::SessionBudgetExceeded),
        error(CodexErrorDetails::CyberPolicy { message: "refused".to_string() }),
    ] {
        assert!(ends_the_turn(&err), "{err:?} should end the turn");
        assert!(!sampling_retries(&err), "{err:?} should not be retried");
    }
}

/// Remote compaction is a step within a turn, and a local one follows it.
#[test]
fn remote_compaction_keeps_its_ceiling() {
    let err = stream_error("disconnected");
    let status = PoolStatus::new();
    assert!(retry_is_allowed(
        &err,
        4,
        5,
        ResponsesStreamRequest::RemoteCompactionV2,
        true,
        &status,
        &Ledger::new()
    ));
    assert!(!retry_is_allowed(
        &err,
        5,
        5,
        ResponsesStreamRequest::RemoteCompactionV2,
        true,
        &status,
        &Ledger::new()
    ));
    assert!(retry_is_allowed(
        &error(CodexErrorDetails::ServerOverloaded),
        500,
        5,
        ResponsesStreamRequest::RemoteCompactionV2,
        true,
        &status,
        &Ledger::new()
    ));
    assert!(retry_is_allowed(
        &err,
        500,
        5,
        ResponsesStreamRequest::RemoteCompactionV2,
        true,
        &exhausted(),
        &Ledger::new()
    ));
}

/// A limit that the user set is honored.
#[test]
fn an_explicit_ceiling_is_honored() {
    let err = stream_error("disconnected");
    let capped = |retries| {
        retry_is_allowed(
            &err,
            retries,
            5,
            ResponsesStreamRequest::Sampling,
            false,
            &PoolStatus::new(),
            &Ledger::new(),
        )
    };
    assert!(capped(4));
    assert!(!capped(5));
}

/// Without an account of the pool, billing is not about the account.
#[test]
fn billing_failures_are_not_account_scoped() {
    let ledger = Ledger::new();
    assert!(!is_account_scoped(&error(CodexErrorDetails::QuotaExceeded), &ledger));
    assert!(!is_account_scoped(&error(CodexErrorDetails::ServerOverloaded), &ledger));
    assert!(!is_account_scoped(&stream_error("x"), &ledger));
    assert!(will_not_fix_itself(&error(CodexErrorDetails::QuotaExceeded), true));
}

fn retry_limit(status: u16) -> CodexErr {
    error(CodexErrorDetails::RetryLimit { status })
}

fn leased() -> Ledger {
    let mut ledger = Ledger::new();
    set_held_account(
        &mut ledger,
        Some("acct-a".to_string()),
        Some("a@example.com".to_string()),
    );
    ledger
}

/// While the pool serves an account, its billing, its plan and its congestion
/// are its own.
#[test]
fn the_pool_widens_what_is_about_the_account() {
    let (local, pooled) = (Ledger::new(), leased());
    for err in [
        error(CodexErrorDetails::QuotaExceeded),
        error(CodexErrorDetails::UsageNotIncluded),
        retry_limit(429),
    ] {
        assert!(!is_account_scoped(&err, &local), "{err:?}");
        assert!(is_account_scoped(&err, &pooled), "{err:?}");
    }
    for ledger in [&local, &pooled] {
        assert!(is_account_scoped(&usage_limit(None), ledger));
        assert!(!is_account_scoped(&retry_limit(500), ledger));
        assert!(!is_account_scoped(&error(CodexErrorDetails::ServerOverloaded), ledger));
        assert!(!is_account_scoped(&http_error(429), ledger));
    }
}

/// Each failure is reported for what it is.
#[test]
fn each_refused_account_is_reported_with_its_reason() {
    let pooled = TurnContext { external_auth: Some(true), ..context() };
    let status = PoolStatus::new();
    for (err, reason) in [
        (usage_limit(None), "usage_limit"),
        (retry_limit(429), "retry_limit_429"),
        (error(CodexErrorDetails::QuotaExceeded), "quota_exceeded"),
        (error(CodexErrorDetails::UsageNotIncluded), "usage_not_included"),
    ] {
        assert_eq!(reject_reason(&err), Some(reason));
        let mut ledger = leased();
        let kind = RetryKind::of(&err, &pooled, &status, &mut ledger);
        assert_eq!(kind, RetryKind::SwapAccount);
        assert_eq!(refusal_reason(&ledger).as_deref(), Some(reason));
        assert!(retry_is_allowed(
            &err,
            500,
            5,
            ResponsesStreamRequest::RemoteCompactionV2,
            false,
            &status,
            &ledger
        ));
        let limited = TurnContext { stream_max_retries: Some(1), ..pooled };
        assert!(!ends_the_turn_now(&err, &limited, &status, &ledger));
    }
    assert_eq!(reject_reason(&retry_limit(500)), None);
    assert_eq!(reject_reason(&stream_error("x")), None);
}

/// With the user's own account in hand there is nothing to swap to: billing is
/// something to fix, and congestion is waited out.
#[test]
fn the_users_own_account_is_not_swapped() {
    let pooled = TurnContext { external_auth: Some(true), ..context() };
    let status = PoolStatus::new();
    let mut ledger = Ledger::new();
    for (err, kind) in [
        (error(CodexErrorDetails::QuotaExceeded), RetryKind::Stuck),
        (error(CodexErrorDetails::UsageNotIncluded), RetryKind::Stuck),
        (retry_limit(429), RetryKind::Transient),
        (retry_limit(500), RetryKind::Transient),
    ] {
        assert_eq!(RetryKind::of(&err, &pooled, &status, &mut ledger), kind);
    }
    assert_eq!(refusal_reason(&ledger), None);
    let limited = TurnContext { stream_max_retries: Some(1), ..pooled };
    assert!(ends_the_turn_now(
        &error(CodexErrorDetails::QuotaExceeded),
        &limited,
        &status,
        &ledger
    ));
}

/// A client error repeats itself; a busy signal says "not now".
#[test]
fn a_client_error_is_stuck_but_a_busy_signal_is_not() {
    for status in [400, 401, 403, 404, 422] {
        assert!(will_not_fix_itself(&http_error(status), true), "{status}");
    }
    for status in [408, 409, 425, 429, 500, 502, 503] {
        assert!(!will_not_fix_itself(&http_error(status), true), "{status}");
    }
    assert!(!will_not_fix_itself(&http_error(404), false));
}

/// A lost connection is waited out, not fixed.
#[test]
fn a_network_failure_is_not_reported_as_something_to_fix() {
    assert!(!will_not_fix_itself(&error(CodexErrorDetails::Timeout), true));
    assert!(!will_not_fix_itself(&error(CodexErrorDetails::RequestTimeout), true));
    assert!(!will_not_fix_itself(&error(CodexErrorDetails::InternalServerError), true));
    assert!(!will_not_fix_itself(&stream_error("x"), true));
    assert!(will_not_fix_itself(
        &error(CodexErrorDetails::InvalidRequest("x".to_string())),
        true
    ));
}

#[test]
fn every_lasting_error_is_stuck() {
    for details in [
        CodexErrorDetails::Json,
        CodexErrorDetails::TokioJoin,
        CodexErrorDetails::InternalAgentDied,
        CodexErrorDetails::InvalidImageRequest,
        CodexErrorDetails::UnsupportedOperation,
        CodexErrorDetails::UsageNotIncluded,
        CodexErrorDetails::CyberPolicy { message: String::new() },
        CodexErrorDetails::AgentLimitReached,
        CodexErrorDetails::ThreadNotFound,
        CodexErrorDetails::SessionConfiguredNotFirstEvent,
        CodexErrorDetails::EnvVar,
        CodexErrorDetails::Fatal,
        CodexErrorDetails::Spawn,
        CodexErrorDetails::Sandbox,
        CodexErrorDetails::LandlockSandboxExecutableNotProvided,
    ] {
        assert!(will_not_fix_itself(&error(details), false));
    }
    assert!(!will_not_fix_itself(&error(CodexErrorDetails::Other), true));
    assert!(!will_not_fix_itself(&error(CodexErrorDetails::UnexpectedStatus), true));
    assert!(will_not_fix_itself(&http_error(499), true));
    assert!(!will_not_fix_itself(&http_error(399), true));
}

#[test]
fn a_turn_with_a_limit_ends_on_what_the_host_calls_final() {
    let limited = TurnContext { stream_max_retries: Some(1), ..context() };
    let calm = PoolStatus::new();
    let ledger = Ledger::new();
    assert!(honors_ceiling(&limited));
    assert!(!honors_ceiling(&context()));
    assert!(ends_the_turn_now(&http_error(404), &limited, &calm, &ledger));
    assert!(!ends_the_turn_now(&http_error(404), &context(), &calm, &ledger));
    assert!(!ends_the_turn_now(&stream_error("x"), &limited, &calm, &ledger));
    assert!(!ends_the_turn_now(&usage_limit(None), &limited, &calm, &ledger));
    assert!(!ends_the_turn_now(&http_error(404), &limited, &exhausted(), &ledger));
    let stop = error(CodexErrorDetails::Interrupted);
    assert!(ends_the_turn_now(&stop, &context(), &exhausted(), &ledger));
}

#[test]
fn an_empty_pool_comes_before_the_error() {
    let mut ledger = Ledger::new();
    let pooled = TurnContext { external_auth: Some(true), ..context() };
    let kind = RetryKind::of_given(&usage_limit(None), &pooled, &exhausted(), &mut ledger, None);
    assert_eq!(kind, RetryKind::PoolExhausted);
    assert_eq!(refusal_reason(&ledger), None);
}

#[test]
fn a_used_up_account_is_swapped_and_reported() {
    let mut ledger = Ledger::new();
    let pooled = TurnContext { external_auth: Some(true), ..context() };
    let status = PoolStatus::new();
    assert!(leases_credentials(&pooled));
    let kind = RetryKind::of(&usage_limit(None), &pooled, &status, &mut ledger);
    assert_eq!(kind, RetryKind::SwapAccount);
    assert_eq!(refusal_reason(&ledger).as_deref(), Some(REJECT_USAGE_LIMIT));
    assert_eq!(REJECT_USAGE_LIMIT, "usage_limit");
}

#[test]
fn a_used_up_account_without_a_pool_waits_for_its_window() {
    let mut ledger = Ledger::new();
    let status = PoolStatus::new();
    for external_auth in [None, Some(false)] {
        let alone = TurnContext { external_auth, ..context() };
        assert!(!leases_credentials(&alone));
        let kind =
            RetryKind::of_given(&usage_limit(None), &alone, &status, &mut ledger, Some(7));
        assert_eq!(kind, RetryKind::QuotaWindow { resets_in: Some(7) });
        let unknown = RetryKind::of(&usage_limit(None), &alone, &status, &mut ledger);
        assert_eq!(unknown, RetryKind::QuotaWindow { resets_in: None });
    }
    assert_eq!(refusal_reason(&ledger), None);
}

#[test]
fn the_other_kinds_go_by_the_error() {
    let mut ledger = Ledger::new();
    let status = PoolStatus::new();
    let mut kind = |err: &CodexErr, websocket: bool| {
        let context = TurnContext { responses_websocket_enabled: websocket, ..context() };
        RetryKind::of(err, &context, &status, &mut ledger)
    };
    assert_eq!(kind(&error(CodexErrorDetails::ServerOverloaded), true), RetryKind::Capacity);
    assert_eq!(kind(&http_error(404), true), RetryKind::Transient);
    assert_eq!(kind(&http_error(404), false), RetryKind::Stuck);
    assert_eq!(kind(&error(CodexErrorDetails::QuotaExceeded), true), RetryKind::Stuck);
    assert_eq!(kind(&stream_error("x"), false), RetryKind::Transient);
}

#[test]
fn the_quota_window_is_measured_by_the_clock() {
    let moment = |seconds: i64, nanos: u32| Timestamp::new(seconds, nanos).expect("a moment");
    let err = usage_limit(Some(moment(1_000, 250_000_000)));
    assert_eq!(quota_resets_in_at(&err, moment(990, 750_000_000)), Some(9_500_000_000));
    assert_eq!(quota_resets_in_at(&err, moment(1_000, 250_000_000)), Some(0));
    assert_eq!(quota_resets_in_at(&err, moment(1_000, 250_000_001)), None);
    assert_eq!(quota_resets_in_at(&usage_limit(None), moment(0, 0)), None);
    assert_eq!(quota_resets_in_at(&stream_error("x"), moment(0, 0)), None);
    // By the system clock: the epoch is past, and the year 9999 is not.
    assert_eq!(quota_resets_in(&usage_limit(Some(moment(0, 0)))), None);
    let far = quota_resets_in(&usage_limit(Some(moment(253_402_300_799, 0))));
    assert!(far.expect("the year 9999 is ahead") > 7_000 * 365 * 24 * 60 * MINUTE);
}

#[test]
fn each_kind_waits_within_its_bounds() {
    let wait = |kind: RetryKind, base: u128, count: u64| kind.delay(base, count, 5);
    assert_eq!(wait(RetryKind::PoolExhausted, 86_400 * SECOND, 1), 30 * SECOND);
    assert_eq!(wait(RetryKind::SwapAccount, 1, 1), 6 * SECOND);
    assert_eq!(wait(RetryKind::SwapAccount, 10 * SECOND, 1), 10 * SECOND);
    assert_eq!(wait(RetryKind::SwapAccount, 86_400 * SECOND, 1), 60 * SECOND);
    let window = |resets_in| RetryKind::QuotaWindow { resets_in };
    assert_eq!(wait(window(None), 1, 1), 600 * SECOND);
    assert_eq!(wait(window(Some(0)), 1, 1), 60 * SECOND);
    assert_eq!(wait(window(Some(90 * SECOND)), 1, 1), 90 * SECOND);
    assert_eq!(wait(window(Some(86_400 * SECOND)), 1, 1), 600 * SECOND);
    assert_eq!(wait(RetryKind::Stuck, 1, 1), SECOND);
    assert_eq!(wait(RetryKind::Stuck, 61 * SECOND, 1), 60 * SECOND);
    for kind in [RetryKind::Capacity, RetryKind::Transient] {
        assert_eq!(wait(kind, 200_000_000, 5), 200_000_000);
        assert_eq!(wait(kind, 200_000_000, 6), SECOND);
        assert_eq!(wait(kind, 86_400 * SECOND, 5), 60 * SECOND);
        assert_eq!(wait(kind, 86_400 * SECOND, 6), 60 * SECOND);
    }
}

#[test]
fn each_kind_is_reported_once() {
    let mut status = exhausted();
    assert!(RetryKind::PoolExhausted.should_report(1, &context(), &mut status));
    assert!(!RetryKind::PoolExhausted.should_report(2, &context(), &mut status));
    assert!(mark_pool_serving(&mut status));
    assert!(mark_pool_exhausted(&mut status));
    assert!(RetryKind::PoolExhausted.should_report(9, &context(), &mut status));

    for kind in [RetryKind::SwapAccount, RetryKind::Capacity, RetryKind::Stuck] {
        assert!(kind.should_report(1, &context(), &mut status));
        assert!(!kind.should_report(2, &context(), &mut status));
    }
    let hidden = context();
    assert!(!RetryKind::Transient.should_report(1, &hidden, &mut status));
    assert!(RetryKind::Transient.should_report(2, &hidden, &mut status));
    assert!(!RetryKind::Transient.should_report(3, &hidden, &mut status));
    for open in [
        TurnContext { debug_build: true, ..context() },
        TurnContext { responses_websocket_enabled: false, ..context() },
    ] {
        assert!(RetryKind::Transient.should_report(1, &open, &mut status));
        assert!(!RetryKind::Transient.should_report(2, &open, &mut status));
    }
}

#[test]
fn each_kind_has_its_words() {
    assert_eq!(
        RetryKind::PoolExhausted.message(),
        "No account is available in the account pool. The session will not be interrupted — it \
         keeps retrying indefinitely until an account is added or a quota window resets. Press Esc \
         to stop."
    );
    assert_eq!(
        RetryKind::SwapAccount.message(),
        "This account is out of quota. Leasing another account and retrying indefinitely until the \
         pool can serve this session. Press Esc to stop."
    );
    assert_eq!(
        RetryKind::QuotaWindow { resets_in: None }.message(),
        "This account is out of quota and no account pool is configured, so there is nothing to \
         switch to. Retrying indefinitely until the window resets. Press Esc to stop."
    );
    assert_eq!(
        RetryKind::QuotaWindow { resets_in: Some(12 * MINUTE) }.message(),
        "This account is out of quota and no account pool is configured, so there is nothing to \
         switch to. Retrying indefinitely until the window resets in about 12 minutes. Press Esc \
         to stop."
    );
    assert_eq!(
        RetryKind::Capacity.message(),
        "Selected model is at capacity. Retrying indefinitely until it becomes available. Press \
         Esc to stop."
    );
    assert_eq!(
        RetryKind::Transient.message(),
        "Connection to the model failed. Retrying indefinitely until it recovers. Press Esc to \
         stop."
    );
    assert_eq!(
        RetryKind::Stuck.message(),
        "This request fails the same way every time and will not recover on its own. Retrying \
         indefinitely so you can fix the cause without losing the session; press Esc to stop."
    );
    assert_eq!(
        RetryKind::PoolExhausted.waiting_for(),
        Some("account pool has nothing to lease")
    );
    assert_eq!(
        RetryKind::SwapAccount.waiting_for(),
        Some("account is out of quota - leasing another one")
    );
    assert_eq!(
        RetryKind::QuotaWindow { resets_in: Some(1) }.waiting_for(),
        Some("account is out of quota and there is no pool to swap to")
    );
    assert_eq!(RetryKind::Capacity.waiting_for(), Some("selected model is at capacity"));
    assert_eq!(RetryKind::Stuck.waiting_for(), Some("request will not recover on its own"));
    assert_eq!(RetryKind::Transient.waiting_for(), None);
}

#[test]
fn a_wait_is_spoken_in_minutes_and_hours() {
    assert_eq!(humanize(0), "a minute");
    assert_eq!(humanize(MINUTE - 1), "a minute");
    assert_eq!(humanize(MINUTE), "1 minutes");
    assert_eq!(humanize(90 * MINUTE + 59 * SECOND), "90 minutes");
    assert_eq!(humanize(91 * MINUTE), "2 hours");
    assert_eq!(humanize(120 * MINUTE), "2 hours");
    assert_eq!(humanize(121 * MINUTE), "3 hours");
    assert_eq!(humanize(7 * 24 * 60 * MINUTE), "168 hours");
    // The longest span that std can hold.
    assert_eq!(
        humanize(std::time::Duration::MAX.as_nanos()),
        format!("{} hours", (u64::MAX / 60).div_ceil(60))
    );
}

/// Without a limit a request is retried past every count, and the back-off stops
/// growing at the usual number.
#[test]
fn a_failed_request_is_retried_without_end() {
    let mut ledger = Ledger::new();
    let status = PoolStatus::new();
    let mut retries: u64 = 499;
    let decision = handle_retryable_response_stream_error(
        &mut retries,
        5,
        &http_error(404),
        false,
        &context(),
        ResponsesStreamRequest::Sampling,
        &status,
        &mut ledger,
    );
    assert_eq!(
        decision,
        RetryDecision::Retry { kind: Some(RetryKind::Transient), base: BaseDelay::BackOff(5) }
    );
    assert_eq!(retries, 500);

    let mut last: u64 = u64::MAX;
    let asked = CodexErr { retry_delay: Some(7), ..stream_error("x") };
    let decision = handle_retryable_response_stream_error(
        &mut last,
        0,
        &asked,
        false,
        &context(),
        ResponsesStreamRequest::Sampling,
        &status,
        &mut ledger,
    );
    assert_eq!(
        decision,
        RetryDecision::Retry { kind: Some(RetryKind::Transient), base: BaseDelay::Asked(7) }
    );
    assert_eq!(last, u64::MAX);
}

#[test]
fn a_failed_request_is_given_up_at_the_users_limit() {
    let mut ledger = Ledger::new();
    let limited = TurnContext { stream_max_retries: Some(2), ..context() };
    let status = PoolStatus::new();
    let mut retries: u64 = 1;
    let mut handle = |err: &CodexErr, retries: &mut u64, switched: bool| {
        handle_retryable_response_stream_error(
            retries,
            2,
            err,
            switched,
            &limited,
            ResponsesStreamRequest::Sampling,
            &status,
            &mut ledger,
        )
    };
    assert_eq!(
        handle(&stream_error("x"), &mut retries, true),
        RetryDecision::Retry { kind: None, base: BaseDelay::BackOff(2) }
    );
    assert_eq!(retries, 2);
    assert_eq!(handle(&stream_error("x"), &mut retries, false), RetryDecision::GiveUp);
    assert_eq!(retries, 2);
    // Another transport is a fresh start.
    assert_eq!(handle(&stream_error("x"), &mut retries, true), RetryDecision::SwitchedTransport);
    assert_eq!(retries, 0);
}

#[test]
fn another_transport_is_for_errors_of_the_channel() {
    assert!(wants_fallback_transport(&stream_error("x"), 5, 5));
    assert!(!wants_fallback_transport(&stream_error("x"), 4, 5));
    assert!(wants_fallback_transport(&error(CodexErrorDetails::ServerOverloaded), 5, 5));
    assert!(!wants_fallback_transport(&error(CodexErrorDetails::InvalidImageRequest), 9, 5));
    assert_eq!(
        fallback_notice("stream lost"),
        "Falling back from WebSockets to HTTPS transport. stream lost"
    );
}

#[test]
fn a_user_limit_does_not_hold_back_a_swap() {
    let mut ledger = Ledger::new();
    let limited = TurnContext {
        stream_max_retries: Some(0),
        external_auth: Some(true),
        ..context()
    };
    let mut retries: u64 = 3;
    let decision = handle_stream_error_given(
        &mut retries,
        0,
        &usage_limit(None),
        false,
        &limited,
        ResponsesStreamRequest::Sampling,
        &PoolStatus::new(),
        &mut ledger,
        None,
    );
    assert_eq!(
        decision,
        RetryDecision::Retry { kind: Some(RetryKind::SwapAccount), base: BaseDelay::BackOff(1) }
    );
    assert_eq!(retries, 4);
    assert_eq!(refusal_reason(&ledger).as_deref(), Some("usage_limit"));
}

#[test]
fn a_retry_is_scheduled_by_its_kind() {
    let mut status = exhausted();
    let first = schedule_retry(Some(RetryKind::PoolExhausted), 5, 1, 5, &context(), &mut status);
    assert_eq!(
        first,
        RetryAction {
            delay: 30 * SECOND,
            notice: Some(RetryKind::PoolExhausted.message()),
        }
    );
    let again = schedule_retry(Some(RetryKind::PoolExhausted), 5, 2, 5, &context(), &mut status);
    assert_eq!(again, RetryAction { delay: 30 * SECOND, notice: None });
    let first_stuck = schedule_retry(Some(RetryKind::Stuck), 5, 1, 5, &context(), &mut status);
    assert_eq!(
        first_stuck,
        RetryAction { delay: SECOND, notice: Some(RetryKind::Stuck.message()) }
    );
}

#[test]
fn a_retry_under_the_users_limit_counts_aloud() {
    let mut status = PoolStatus::new();
    let long = 86_400 * SECOND;
    let mut notice = |count: u64, context: TurnContext| {
        let action = schedule_retry(None, long, count, 12, &context, &mut status);
        assert_eq!(action.delay, long);
        action.notice
    };
    assert_eq!(notice(1, context()), None);
    assert_eq!(notice(2, context()).as_deref(), Some("Reconnecting... 2/12"));
    let open = TurnContext { responses_websocket_enabled: false, ..context() };
    assert_eq!(notice(1, open).as_deref(), Some("Reconnecting... 1/12"));
    let debug = TurnContext { debug_build: true, ..context() };
    assert_eq!(notice(10, debug).as_deref(), Some("Reconnecting... 10/12"));
}
