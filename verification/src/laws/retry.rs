//! What holds of retrying across attempts.

use crate::clock::{within_calendar, Timestamp};
use crate::error::{CodexErr, CodexErrorDetails};
use crate::ledger::{refused, LedgerView};
use crate::lease::{
    REJECT_QUOTA_EXCEEDED, REJECT_RETRY_LIMIT, REJECT_USAGE_LIMIT, REJECT_USAGE_NOT_INCLUDED,
};
use crate::retry::{
    account_scoped, backoff_attempt, can_lease, ceiling_notice, counted, decision, ends_turn,
    ends_turn_now, fallback_wanted, goes_by_kind, has_ceiling, kind_of, ledger_after,
    ledger_after_decision, reason_of, refuses_account, reset_wait, retry_allowed, spoken, stuck,
    with_refusal, BaseDelay, ResponsesStreamRequest, RetryDecision, RetryKind, TurnContext,
    ACCOUNT_SWAP_MIN_DELAY, MAX_RETRY_DELAY, POOL_EXHAUSTED_RETRY_DELAY, QUOTA_WINDOW_MAX_DELAY,
    QUOTA_WINDOW_MIN_DELAY, UNBOUNDED_RETRY_MIN_DELAY,
};
use crate::status::PoolStatus;
use crate::text::{decimal, trimmed_end, trimmed_start, white_space};
use vstd::prelude::*;

verus! {

/// A session is ended by its user and not by errors: without a limit of the
/// user's own, a sampling request is given up only where the error ends the
/// turn, however often it has failed.
pub proof fn sampling_never_gives_up(
    err: CodexErr,
    retries: u64,
    max_retries: u64,
    switched: bool,
    context: TurnContext,
    status: PoolStatus,
    ledger: LedgerView,
    resets_in: Option<u128>,
)
    requires
        !has_ceiling(context),
        !ends_turn(err),
    ensures
        decision(
            err,
            retries,
            max_retries,
            switched,
            context,
            ResponsesStreamRequest::Sampling,
            status,
            ledger,
            resets_in,
        ) != RetryDecision::GiveUp,
{
}

/// The user's stop and the walls that a turn cannot move end a sampling request
/// at once.
pub proof fn a_stop_is_a_stop(
    err: CodexErr,
    retries: u64,
    max_retries: u64,
    context: TurnContext,
    status: PoolStatus,
    ledger: LedgerView,
    resets_in: Option<u128>,
)
    requires
        ends_turn(err),
    ensures
        ends_turn_now(err, context, status, ledger),
        !has_ceiling(context) ==> decision(
            err,
            retries,
            max_retries,
            false,
            context,
            ResponsesStreamRequest::Sampling,
            status,
            ledger,
            resets_in,
        ) == RetryDecision::GiveUp,
{
}

/// Whether a request is retried without end depends neither on how often it
/// failed nor on any limit.
pub proof fn counts_do_not_matter_without_a_limit(
    err: CodexErr,
    retries: u64,
    max_retries: u64,
    status: PoolStatus,
    ledger: LedgerView,
)
    ensures
        retry_allowed(
            err,
            retries,
            max_retries,
            ResponsesStreamRequest::Sampling,
            true,
            status,
            ledger,
        ) == !ends_turn(err),
{
}

/// What waits for an account, for the pool or for capacity is retried past every
/// limit.
pub proof fn some_waits_know_no_limit(
    err: CodexErr,
    retries: u64,
    max_retries: u64,
    request: ResponsesStreamRequest,
    unbounded: bool,
    status: PoolStatus,
    ledger: LedgerView,
)
    requires
        account_scoped(err, ledger) || err.details is ServerOverloaded || (status.exhausted
            && !ends_turn(err)),
    ensures
        retry_allowed(err, retries, max_retries, request, unbounded, status, ledger),
{
}

/// Remote compaction keeps its limit, and so does sampling where the user set
/// one: any other error is retried as often as the limit says.
pub proof fn a_limit_is_honored(
    err: CodexErr,
    retries: u64,
    max_retries: u64,
    unbounded: bool,
    status: PoolStatus,
    ledger: LedgerView,
)
    requires
        !account_scoped(err, ledger),
        !(err.details is ServerOverloaded),
        !status.exhausted,
    ensures
        retry_allowed(
            err,
            retries,
            max_retries,
            ResponsesStreamRequest::RemoteCompactionV2,
            unbounded,
            status,
            ledger,
        ) == (retries < max_retries),
        retry_allowed(
            err,
            retries,
            max_retries,
            ResponsesStreamRequest::Sampling,
            false,
            status,
            ledger,
        ) == (retries < max_retries),
{
}

/// A user's limit leaves retries to the limit alone: no kind, no classification,
/// and an end when the limit is reached.
pub proof fn a_users_limit_is_the_only_rule(
    err: CodexErr,
    retries: u64,
    max_retries: u64,
    context: TurnContext,
    request: ResponsesStreamRequest,
    status: PoolStatus,
    ledger: LedgerView,
    resets_in: Option<u128>,
)
    requires
        has_ceiling(context),
        !account_scoped(err, ledger),
        !(err.details is ServerOverloaded),
        !status.exhausted,
    ensures
        !goes_by_kind(err, context, status, ledger),
        decision(
            err,
            retries,
            max_retries,
            false,
            context,
            request,
            status,
            ledger,
            resets_in,
        ) is GiveUp <==> retries >= max_retries,
        decision(
            err,
            retries,
            max_retries,
            false,
            context,
            request,
            status,
            ledger,
            resets_in,
        ) matches RetryDecision::Retry { kind, .. } ==> kind is None,
{
}

/// Without a limit of the user's own, a turn ends only with an error that ends
/// it; with one, neither a refused account nor an empty pool ends it.
pub proof fn what_ends_a_turn_now(
    err: CodexErr,
    context: TurnContext,
    status: PoolStatus,
    ledger: LedgerView,
)
    ensures
        !has_ceiling(context) ==> ends_turn_now(err, context, status, ledger) == ends_turn(err),
        account_scoped(err, ledger) ==> !ends_turn_now(err, context, status, ledger),
        status.exhausted ==> ends_turn_now(err, context, status, ledger) == ends_turn(err),
        has_ceiling(context) && !err.retryable && !account_scoped(err, ledger) && !status.exhausted
            ==> ends_turn_now(err, context, status, ledger),
{
}

/// An empty pool comes before whatever the error looks like, and the error looks
/// like nothing else.
pub proof fn an_empty_pool_comes_first(
    err: CodexErr,
    context: TurnContext,
    status: PoolStatus,
    ledger: LedgerView,
    resets_in: Option<u128>,
)
    ensures
        kind_of(err, context, status, ledger, resets_in) is PoolExhausted <==> status.exhausted,
{
}

/// What is about the account is answered with another account where there is a
/// pool, and waited out where there is none.
pub proof fn a_used_up_account_is_swapped(
    err: CodexErr,
    context: TurnContext,
    status: PoolStatus,
    ledger: LedgerView,
    resets_in: Option<u128>,
)
    requires
        !status.exhausted,
    ensures
        kind_of(err, context, status, ledger, resets_in) is SwapAccount <==> account_scoped(
            err,
            ledger,
        ) && can_lease(context),
        kind_of(err, context, status, ledger, resets_in) is QuotaWindow <==> account_scoped(
            err,
            ledger,
        ) && !can_lease(context),
{
}

/// Whatever is reported of an account is kept letter by letter: the pool goes by
/// this very text.
pub proof fn the_reason_is_kept_as_it_is(ledger: LedgerView, err: CodexErr, reason: Seq<char>)
    requires
        reason_of(err) == Some(reason),
    ensures
        refused(ledger, reason) == (LedgerView { refusal: Some(reason), ..ledger }),
{
    reveal_strlit("usage_limit");
    reveal_strlit("retry_limit_429");
    reveal_strlit("quota_exceeded");
    reveal_strlit("usage_not_included");
    assert(reason.len() > 0);
    assert(!white_space(reason.first()));
    assert(!white_space(reason.last()));
    assert(trimmed_start(reason) == reason);
    assert(trimmed_end(reason) == reason);
}

/// Each failure that is about the account has a reason, and no two failures share
/// one.
pub proof fn each_failure_has_its_own_reason(ledger: LedgerView, err: CodexErr)
    ensures
        account_scoped(err, ledger) ==> reason_of(err) is Some,
        reason_of(err) == Some(REJECT_USAGE_LIMIT@) <==> err.details is UsageLimitReached,
        reason_of(err) == Some(REJECT_QUOTA_EXCEEDED@) <==> err.details is QuotaExceeded,
        reason_of(err) == Some(REJECT_USAGE_NOT_INCLUDED@) <==> err.details is UsageNotIncluded,
        reason_of(err) == Some(REJECT_RETRY_LIMIT@) <==> (err.details
            matches CodexErrorDetails::RetryLimit { status } && status == 429),
{
    reveal_strlit("usage_limit");
    reveal_strlit("retry_limit_429");
    reveal_strlit("quota_exceeded");
    reveal_strlit("usage_not_included");
    assert(REJECT_USAGE_LIMIT@.len() == 11);
    assert(REJECT_RETRY_LIMIT@.len() == 15);
    assert(REJECT_QUOTA_EXCEEDED@.len() == 14);
    assert(REJECT_USAGE_NOT_INCLUDED@.len() == 18);
}

/// While the pool serves an account, billing, plan and congestion are the
/// account's own; without one, only a used-up quota is.
pub proof fn the_pool_widens_what_is_about_the_account(err: CodexErr, ledger: LedgerView)
    ensures
        ledger.held_email is Some ==> account_scoped(err, ledger) == (reason_of(err) is Some),
        ledger.held_email is None ==> account_scoped(err, ledger)
            == err.details is UsageLimitReached,
        err.details matches CodexErrorDetails::RetryLimit { status } && status != 429
            ==> !account_scoped(err, ledger),
{
}

/// Noting a refusal changes nothing but the refusal, so an error goes on being
/// about the account.
pub proof fn a_refusal_changes_the_refusal_alone(ledger: LedgerView, err: CodexErr)
    ensures
        with_refusal(ledger, err) == (if account_scoped(err, ledger) {
            LedgerView { refusal: reason_of(err), ..ledger }
        } else {
            ledger
        }),
        account_scoped(err, with_refusal(ledger, err)) == account_scoped(err, ledger),
{
    if let Some(reason) = reason_of(err) {
        the_reason_is_kept_as_it_is(ledger, err, reason);
    }
}

/// Swapping an account tells the pool why the one in hand was refused, and no
/// other retry tells it anything.
pub proof fn only_a_swap_reports_a_refusal(
    ledger: LedgerView,
    err: CodexErr,
    context: TurnContext,
    status: PoolStatus,
    resets_in: Option<u128>,
)
    ensures
        ledger_after(ledger, err, context, status) == (if kind_of(
            err,
            context,
            status,
            ledger,
            resets_in,
        ) is SwapAccount {
            LedgerView { refusal: reason_of(err), ..ledger }
        } else {
            ledger
        }),
        kind_of(err, context, status, ledger, resets_in) is SwapAccount ==> reason_of(err) is Some,
{
    a_refusal_changes_the_refusal_alone(ledger, err);
}

/// Every wait is bounded, by what is waited for.
pub proof fn every_wait_is_bounded(kind: RetryKind, base: u128, retry_count: u64, max_retries: u64)
    ensures
        ({
            let wait = kind.wait(base, retry_count, max_retries);
            match kind {
                RetryKind::PoolExhausted => wait == POOL_EXHAUSTED_RETRY_DELAY,
                RetryKind::SwapAccount => ACCOUNT_SWAP_MIN_DELAY <= wait <= MAX_RETRY_DELAY,
                RetryKind::QuotaWindow { .. } => QUOTA_WINDOW_MIN_DELAY <= wait
                    <= QUOTA_WINDOW_MAX_DELAY,
                RetryKind::Stuck => UNBOUNDED_RETRY_MIN_DELAY <= wait <= MAX_RETRY_DELAY,
                RetryKind::Capacity | RetryKind::Transient => wait <= MAX_RETRY_DELAY,
            }
        }),
{
}

/// There is no hot loop: past the usual number of retries every wait lasts a
/// second at least.
pub proof fn there_is_no_hot_loop(kind: RetryKind, base: u128, retry_count: u64, max_retries: u64)
    requires
        retry_count > max_retries,
    ensures
        kind.wait(base, retry_count, max_retries) >= UNBOUNDED_RETRY_MIN_DELAY,
{
}

/// Up to the usual number of retries, a failed connection waits as the server or
/// the back-off says, within the bound.
pub proof fn the_first_retries_follow_the_back_off(base: u128, retry_count: u64, max_retries: u64)
    requires
        retry_count <= max_retries,
        base <= MAX_RETRY_DELAY,
    ensures
        RetryKind::Transient.wait(base, retry_count, max_retries) == base,
        RetryKind::Capacity.wait(base, retry_count, max_retries) == base,
{
}

/// A series of retries is spoken of once: no two of them are, except across two
/// shortages of the pool.
pub proof fn each_kind_is_spoken_of_once(
    kind: RetryKind,
    first: u64,
    second: u64,
    context: TurnContext,
    status: PoolStatus,
)
    requires
        kind.reports(first, context, status),
    ensures
        kind is PoolExhausted ==> !kind.reports(second, context, kind.status_after(status)),
        !(kind is PoolExhausted) && kind.reports(second, context, kind.status_after(status))
            ==> first == second,
{
}

/// A series of retries is spoken of by its second retry at the latest.
pub proof fn each_kind_is_spoken_of(kind: RetryKind, context: TurnContext, status: PoolStatus)
    requires
        kind is PoolExhausted ==> status.exhausted,
    ensures
        kind is PoolExhausted ==> status.announced || kind.reports(1, context, status),
        !(kind is PoolExhausted) ==> kind.reports(1, context, status) || kind.reports(
            2,
            context,
            status,
        ),
{
}

/// Over a web socket a status code says nothing of the request.
pub proof fn a_status_code_counts_without_a_web_socket_only(err: CodexErr)
    requires
        err.details is UnexpectedStatus,
    ensures
        !stuck(err, false),
{
}

/// Without an account of the pool, billing is something to fix: it does not
/// recover with a quota window, and there is no account to swap to.
pub proof fn billing_is_something_to_fix(
    err: CodexErr,
    context: TurnContext,
    status: PoolStatus,
    ledger: LedgerView,
    resets_in: Option<u128>,
)
    requires
        err.details is QuotaExceeded || err.details is UsageNotIncluded,
        ledger.held_email is None,
        !status.exhausted,
    ensures
        !account_scoped(err, ledger),
        stuck(err, true) && stuck(err, false),
        !ends_turn(err),
        kind_of(err, context, status, ledger, resets_in) is Stuck,
        ledger_after(ledger, err, context, status) == ledger,
{
}

/// While the pool serves an account, what is about that account is answered with
/// another account, whatever limit the user set.
pub proof fn a_refused_pool_account_is_swapped(
    err: CodexErr,
    retries: u64,
    max_retries: u64,
    context: TurnContext,
    request: ResponsesStreamRequest,
    status: PoolStatus,
    ledger: LedgerView,
    resets_in: Option<u128>,
)
    requires
        reason_of(err) is Some,
        ledger.held_email is Some,
        can_lease(context),
        !status.exhausted,
    ensures
        kind_of(err, context, status, ledger, resets_in) is SwapAccount,
        ledger_after(ledger, err, context, status).refusal == reason_of(err),
        !ends_turn_now(err, context, status, ledger),
        decision(
            err,
            retries,
            max_retries,
            false,
            context,
            request,
            status,
            ledger,
            resets_in,
        ) matches RetryDecision::Retry { kind, .. } && kind == Some(RetryKind::SwapAccount),
{
    a_refusal_changes_the_refusal_alone(ledger, err);
}

/// Another transport is tried only where the limit is reached, and only for an
/// error that may be the channel's.
pub proof fn another_transport_is_a_last_resort(
    err: CodexErr,
    retries: u64,
    max_retries: u64,
    context: TurnContext,
    request: ResponsesStreamRequest,
    status: PoolStatus,
    ledger: LedgerView,
    resets_in: Option<u128>,
)
    ensures
        ({
            let chosen = decision(
                err,
                retries,
                max_retries,
                true,
                context,
                request,
                status,
                ledger,
                resets_in,
            );
            &&& chosen is SwitchedTransport ==> retries >= max_retries && (err.retryable
                || err.details is ServerOverloaded)
            &&& chosen is SwitchedTransport ==> chosen.retries_after(retries) == 0
            &&& !fallback_wanted(err, retries, max_retries) ==> chosen == decision(
                err,
                retries,
                max_retries,
                false,
                context,
                request,
                status,
                ledger,
                resets_in,
            )
        }),
{
}

/// Five errors end a turn, and no other: the user's own stop, a full context, a
/// budget that is used up, and a refusal by policy.
pub proof fn five_errors_end_a_turn(err: CodexErr)
    ensures
        ends_turn(err) <==> {
            ||| err.details is TurnAborted
            ||| err.details is Interrupted
            ||| err.details is ContextWindowExceeded
            ||| err.details is SessionBudgetExceeded
            ||| err.details is CyberPolicy
        },
{
}

/// Without a limit of the user's own, a sampling request that fails is sent again
/// after every error but the five that end a turn, whatever else is the case.
pub proof fn sampling_gives_up_on_five_errors_only(
    err: CodexErr,
    retries: u64,
    max_retries: u64,
    switched: bool,
    context: TurnContext,
    status: PoolStatus,
    ledger: LedgerView,
    resets_in: Option<u128>,
)
    requires
        context.stream_max_retries is None,
        decision(
            err,
            retries,
            max_retries,
            switched,
            context,
            ResponsesStreamRequest::Sampling,
            status,
            ledger,
            resets_in,
        ) is GiveUp,
    ensures
        err.details is TurnAborted || err.details is Interrupted || err.details
            is ContextWindowExceeded || err.details is SessionBudgetExceeded || err.details
            is CyberPolicy,
{
}

/// The context is read as it is: a limit is a limit that is set, and an account
/// can be leased where the credentials come from outside.
pub proof fn the_context_is_read_as_it_is(context: TurnContext)
    ensures
        has_ceiling(context) <==> context.stream_max_retries is Some,
        can_lease(context) <==> context.external_auth is Some && context.external_auth->0,
{
}

/// Whether an error is about the account, told by its variant: a usage limit
/// always is; billing, plan and a 429 are while the pool serves an account.
pub open spec fn about_the_account(err: CodexErr, ledger: LedgerView) -> bool {
    ||| err.details is UsageLimitReached
    ||| ledger.held_email is Some && {
        ||| err.details is QuotaExceeded
        ||| err.details is UsageNotIncluded
        ||| err.details is RetryLimit && err.details->RetryLimit_status == 429
    }
}

/// What is about the account is told by the error's variant and by whether the
/// pool serves an account, and has a reason of its own.
pub proof fn what_is_about_the_account(err: CodexErr, ledger: LedgerView)
    ensures
        account_scoped(err, ledger) <==> about_the_account(err, ledger),
        err.details is UsageLimitReached ==> reason_of(err) == Some("usage_limit"@),
        err.details is QuotaExceeded ==> reason_of(err) == Some("quota_exceeded"@),
        err.details is UsageNotIncluded ==> reason_of(err) == Some("usage_not_included"@),
        err.details is RetryLimit && err.details->RetryLimit_status == 429 ==> reason_of(err)
            == Some("retry_limit_429"@),
        about_the_account(err, ledger) ==> reason_of(err) is Some,
        !about_the_account(err, LedgerView { held_email: Some(Seq::empty()), ..ledger })
            ==> reason_of(err) is None,
{
}

/// What ends a turn at once: an error that ends it, or, under a limit of the
/// user's own, one that the host calls final, unless it waits for an account.
pub proof fn a_turn_ends_at_once_for_two_reasons(
    err: CodexErr,
    context: TurnContext,
    status: PoolStatus,
    ledger: LedgerView,
)
    ensures
        ends_turn_now(err, context, status, ledger) <==> {
            ||| err.details is TurnAborted
            ||| err.details is Interrupted
            ||| err.details is ContextWindowExceeded
            ||| err.details is SessionBudgetExceeded
            ||| err.details is CyberPolicy
            ||| {
                &&& context.stream_max_retries is Some
                &&& !err.retryable
                &&& !about_the_account(err, ledger)
                &&& !status.exhausted
            }
        },
{
}

/// The errors that repeat until somebody changes something, told by variant and
/// status code.
pub proof fn what_repeats_until_it_is_fixed(err: CodexErr, trust_status_codes: bool)
    ensures
        stuck(err, trust_status_codes) <==> {
            ||| err.details is Json
            ||| err.details is TokioJoin
            ||| err.details is InternalAgentDied
            ||| err.details is InvalidRequest
            ||| err.details is InvalidImageRequest
            ||| err.details is UnsupportedOperation
            ||| err.details is QuotaExceeded
            ||| err.details is UsageNotIncluded
            ||| err.details is CyberPolicy
            ||| err.details is AgentLimitReached
            ||| err.details is ThreadNotFound
            ||| err.details is SessionConfiguredNotFirstEvent
            ||| err.details is EnvVar
            ||| err.details is Fatal
            ||| err.details is Spawn
            ||| err.details is Sandbox
            ||| err.details is LandlockSandboxExecutableNotProvided
            ||| {
                &&& err.details is UnexpectedStatus
                &&& trust_status_codes
                &&& err.http_status is Some
                &&& err.http_status->0 / 100 == 4
                &&& err.http_status->0 != 408
                &&& err.http_status->0 != 409
                &&& err.http_status->0 != 425
                &&& err.http_status->0 != 429
            }
        },
{
}

/// Whether a request is retried: sampling without a limit unless the error ends
/// the turn; anything else up to the limit, and past it for an account, for the
/// pool and for capacity.
pub proof fn when_a_request_is_retried(
    err: CodexErr,
    retries: u64,
    max_retries: u64,
    request: ResponsesStreamRequest,
    unbounded: bool,
    status: PoolStatus,
    ledger: LedgerView,
)
    ensures
        request is Sampling && unbounded ==> (retry_allowed(
            err,
            retries,
            max_retries,
            request,
            unbounded,
            status,
            ledger,
        ) <==> !(err.details is TurnAborted || err.details is Interrupted || err.details
            is ContextWindowExceeded || err.details is SessionBudgetExceeded || err.details
            is CyberPolicy)),
        !(request is Sampling && unbounded) ==> (retry_allowed(
            err,
            retries,
            max_retries,
            request,
            unbounded,
            status,
            ledger,
        ) <==> about_the_account(err, ledger) || status.exhausted || err.details is ServerOverloaded
            || retries < max_retries),
{
}

/// The wait for a quota window leads from the present to the reset exactly; of a
/// reset that has passed, or is not known, nothing is left to wait for.
pub proof fn a_quota_window_ends_at_its_reset(err: CodexErr, now: Timestamp)
    requires
        within_calendar(now.since_epoch()),
    ensures
        !(err.details is UsageLimitReached) ==> reset_wait(err, now) is None,
        err.details matches CodexErrorDetails::UsageLimitReached { resets_at } ==> {
            &&& resets_at is None ==> reset_wait(err, now) is None
            &&& resets_at matches Some(moment) ==> within_calendar(moment.since_epoch()) ==> {
                &&& reset_wait(err, now) is None <==> moment.since_epoch() < now.since_epoch()
                &&& reset_wait(err, now) matches Some(wait) ==> now.since_epoch() + wait
                    == moment.since_epoch()
            }
        },
{
}

/// What a retry waits for, told by the pool, by the error and by the context.
pub proof fn what_a_retry_waits_for(
    err: CodexErr,
    context: TurnContext,
    status: PoolStatus,
    ledger: LedgerView,
    resets_in: Option<u128>,
)
    ensures
        ({
            let kind = kind_of(err, context, status, ledger, resets_in);
            let leases = context.external_auth == Some(true);
            &&& status.exhausted ==> kind is PoolExhausted
            &&& !status.exhausted && about_the_account(err, ledger) && leases ==> kind
                is SwapAccount
            &&& !status.exhausted && about_the_account(err, ledger) && !leases ==> kind
                == (RetryKind::QuotaWindow { resets_in })
            &&& !status.exhausted && !about_the_account(err, ledger) ==> {
                &&& err.details is ServerOverloaded <==> kind is Capacity
                &&& !(err.details is ServerOverloaded) && stuck(
                    err,
                    !context.responses_websocket_enabled,
                ) <==> kind is Stuck
                &&& !(err.details is ServerOverloaded) && !stuck(
                    err,
                    !context.responses_websocket_enabled,
                ) <==> kind is Transient
            }
        }),
{
}

/// Finding out what a retry waits for notes a refusal exactly where an account is
/// swapped, with the reason of the error.
pub proof fn a_swap_notes_its_reason(
    ledger: LedgerView,
    err: CodexErr,
    context: TurnContext,
    status: PoolStatus,
    retries: u64,
    max_retries: u64,
)
    ensures
        ({
            let swaps = !status.exhausted && about_the_account(err, ledger) && context.external_auth
                == Some(true);
            let channel = retries >= max_retries && (err.retryable || err.details
                is ServerOverloaded);
            let noted = LedgerView { refusal: reason_of(err), ..ledger };
            &&& refuses_account(err, context, status, ledger) <==> swaps
            &&& swaps ==> ledger_after(ledger, err, context, status) == noted
            &&& !swaps ==> ledger_after(ledger, err, context, status) == ledger
            &&& channel ==> ledger_after_decision(
                ledger,
                err,
                retries,
                max_retries,
                true,
                context,
                status,
            ) == ledger
            &&& !channel && swaps ==> ledger_after_decision(
                ledger,
                err,
                retries,
                max_retries,
                true,
                context,
                status,
            ) == noted
            &&& swaps ==> ledger_after_decision(
                ledger,
                err,
                retries,
                max_retries,
                false,
                context,
                status,
            ) == noted
            &&& !swaps ==> ledger_after_decision(
                ledger,
                err,
                retries,
                max_retries,
                false,
                context,
                status,
            ) == ledger
        }),
{
    a_refusal_changes_the_refusal_alone(ledger, err);
}

/// Whether a wait is the allowed one that is nearest to `base`.
pub open spec fn is_nearest(wait: u128, base: u128, low: u128, high: u128) -> bool {
    &&& low <= wait <= high
    &&& low <= base <= high ==> wait == base
    &&& base < low ==> wait == low
    &&& base > high ==> wait == high
}

/// Each kind waits as long as it is asked to, as near as its bounds allow: half a
/// minute for the pool, six seconds to a minute for another account, one to ten
/// minutes for a quota window, and up to a minute for anything else, a second at
/// least for what will not mend and past the usual number of retries.
pub proof fn each_kind_waits_as_near_as_its_bounds_allow(
    kind: RetryKind,
    base: u128,
    retry_count: u64,
    max_retries: u64,
)
    ensures
        ({
            let wait = kind.wait(base, retry_count, max_retries);
            &&& kind is PoolExhausted ==> wait == 30_000_000_000
            &&& kind is SwapAccount ==> is_nearest(wait, base, 6_000_000_000, 60_000_000_000)
            &&& kind matches RetryKind::QuotaWindow { resets_in } ==> {
                &&& resets_in is None ==> wait == 600_000_000_000
                &&& resets_in is Some ==> is_nearest(
                    wait,
                    resets_in->0,
                    60_000_000_000,
                    600_000_000_000,
                )
            }
            &&& kind is Stuck ==> is_nearest(wait, base, 1_000_000_000, 60_000_000_000)
            &&& (kind is Capacity || kind is Transient) && retry_count > max_retries ==> is_nearest(
                wait,
                base,
                1_000_000_000,
                60_000_000_000,
            )
            &&& (kind is Capacity || kind is Transient) && retry_count <= max_retries
                ==> is_nearest(wait, base, 0, 60_000_000_000)
        }),
{
}

/// Which retry is spoken of: of a lost connection the second where the first is
/// hidden, of a shortage the one that the announcement falls to, of anything else
/// the first; only a shortage marks that it was spoken of.
pub proof fn which_retry_is_spoken_of(
    kind: RetryKind,
    retry_count: u64,
    context: TurnContext,
    status: PoolStatus,
)
    ensures
        kind is PoolExhausted ==> kind.reports(retry_count, context, status) == (status.exhausted
            && !status.announced),
        kind is Transient && !context.debug_build && context.responses_websocket_enabled
            ==> kind.reports(retry_count, context, status) == (retry_count == 2),
        kind is Transient && (context.debug_build || !context.responses_websocket_enabled)
            ==> kind.reports(retry_count, context, status) == (retry_count == 1),
        !(kind is PoolExhausted) && !(kind is Transient) ==> kind.reports(
            retry_count,
            context,
            status,
        ) == (retry_count == 1),
        kind is PoolExhausted ==> kind.status_after(status).announced == (status.announced
            || status.exhausted) && kind.status_after(status).exhausted == status.exhausted,
        !(kind is PoolExhausted) ==> kind.status_after(status) == status,
{
}

/// What is said of the retries, and what the log says is waited for.
pub proof fn each_kind_has_its_words(kind: RetryKind)
    ensures
        kind is PoolExhausted ==> kind.text()
            == "No account is available in the account pool. The session will not be interrupted — it keeps retrying indefinitely until an account is added or a quota window resets. Press Esc to stop."@
            && kind.log_text() == Some("account pool has nothing to lease"@),
        kind is SwapAccount ==> kind.text()
            == "This account is out of quota. Leasing another account and retrying indefinitely until the pool can serve this session. Press Esc to stop."@
            && kind.log_text() == Some("account is out of quota - leasing another one"@),
        kind matches RetryKind::QuotaWindow { resets_in } ==> {
            &&& kind.log_text() == Some("account is out of quota and there is no pool to swap to"@)
            &&& resets_in is None ==> kind.text()
                =~= "This account is out of quota and no account pool is configured, so there is nothing to switch to. Retrying indefinitely until the window resets"@
                + ". Press Esc to stop."@
            &&& resets_in is Some ==> kind.text()
                =~= "This account is out of quota and no account pool is configured, so there is nothing to switch to. Retrying indefinitely until the window resets"@
                + " in about "@ + spoken(resets_in->0) + ". Press Esc to stop."@
        },
        kind is Capacity ==> kind.text()
            == "Selected model is at capacity. Retrying indefinitely until it becomes available. Press Esc to stop."@
            && kind.log_text() == Some("selected model is at capacity"@),
        kind is Transient ==> kind.text()
            == "Connection to the model failed. Retrying indefinitely until it recovers. Press Esc to stop."@
            && kind.log_text() is None,
        kind is Stuck ==> kind.text()
            == "This request fails the same way every time and will not recover on its own. Retrying indefinitely so you can fix the cause without losing the session; press Esc to stop."@
            && kind.log_text() == Some("request will not recover on its own"@),
{
}

/// A wait is spoken of in whole minutes up to ninety, and in hours that are just
/// enough beyond; less than a minute counts as one.
pub proof fn a_wait_is_spoken_of_in_minutes_and_hours(wait: u128, minutes: nat, hours: nat)
    requires
        60_000_000_000 * minutes <= wait < 60_000_000_000 * (minutes + 1),
        60 * hours - 60 < minutes <= 60 * hours,
    ensures
        minutes == 0 ==> spoken(wait) == "a minute"@,
        1 <= minutes <= 90 ==> spoken(wait) == decimal(minutes) + " minutes"@,
        minutes > 90 ==> spoken(wait) == decimal(hours) + " hours"@,
{
}

/// Another transport is worth a try when the limit is reached, for an error that
/// the host calls retryable and for an overloaded server; a retry goes by kinds
/// unless only the user's own limit is in force.
pub proof fn when_the_limit_does_not_decide(
    err: CodexErr,
    retries: u64,
    max_retries: u64,
    context: TurnContext,
    status: PoolStatus,
    ledger: LedgerView,
)
    ensures
        fallback_wanted(err, retries, max_retries) <==> retries >= max_retries && (err.retryable
            || err.details is ServerOverloaded),
        goes_by_kind(err, context, status, ledger) <==> about_the_account(err, ledger)
            || status.exhausted || context.stream_max_retries is None,
{
}

/// Retries are counted one by one up to the largest number; the back-off counts
/// with them up to the limit, and knows one attempt at least.
pub proof fn retries_are_counted_one_by_one(retries: u64, max_retries: u64)
    ensures
        retries < u64::MAX ==> counted(retries) == retries + 1,
        retries == u64::MAX ==> counted(retries) == u64::MAX,
        retries <= max_retries || retries <= 1 ==> backoff_attempt(retries, max_retries) == retries,
        retries > max_retries && max_retries >= 1 ==> backoff_attempt(retries, max_retries)
            == max_retries,
        retries > 1 && max_retries == 0 ==> backoff_attempt(retries, max_retries) == 1,
        RetryDecision::GiveUp.retries_after(retries) == retries,
        RetryDecision::SwitchedTransport.retries_after(retries) == 0,
        forall|chosen: RetryDecision|
            chosen is Retry ==> #[trigger] chosen.retries_after(retries) == counted(retries),
{
}

/// What becomes of a failed request: another transport, a retry or the end; and
/// of a retry, what it waits for and which delay it starts from.
pub proof fn what_becomes_of_a_failed_request(
    err: CodexErr,
    retries: u64,
    max_retries: u64,
    switched: bool,
    context: TurnContext,
    request: ResponsesStreamRequest,
    status: PoolStatus,
    ledger: LedgerView,
    resets_in: Option<u128>,
)
    ensures
        ({
            let chosen = decision(
                err,
                retries,
                max_retries,
                switched,
                context,
                request,
                status,
                ledger,
                resets_in,
            );
            let channel = switched && retries >= max_retries && (err.retryable || err.details
                is ServerOverloaded);
            let by_kind = about_the_account(err, ledger) || status.exhausted
                || context.stream_max_retries is None;
            let over = err.details is TurnAborted || err.details is Interrupted || err.details
                is ContextWindowExceeded || err.details is SessionBudgetExceeded || err.details
                is CyberPolicy;
            &&& chosen is SwitchedTransport <==> channel
            &&& !channel && request is Sampling && by_kind ==> (chosen is GiveUp <==> over)
            &&& !channel && !(request is Sampling && by_kind) ==> (chosen is GiveUp <==> !(
            about_the_account(err, ledger) || status.exhausted || err.details is ServerOverloaded
                || retries < max_retries))
            &&& chosen matches RetryDecision::Retry { kind, base } ==> {
                &&& by_kind ==> kind == Some(kind_of(err, context, status, ledger, resets_in))
                &&& !by_kind ==> kind is None
                &&& err.retry_delay matches Some(asked) ==> base == BaseDelay::Asked(asked)
                &&& err.retry_delay is None ==> base == BaseDelay::BackOff(
                    backoff_attempt(counted(retries), max_retries),
                )
            }
        }),
{
}

/// Under the user's own limit each retry counts aloud, but for the first over a
/// web socket in a release build.
pub proof fn a_limited_retry_counts_aloud(
    retry_count: u64,
    max_retries: u64,
    context: TurnContext,
)
    ensures
        retry_count <= 1 && !context.debug_build && context.responses_websocket_enabled
            ==> ceiling_notice(retry_count, max_retries, context) is None,
        retry_count > 1 || context.debug_build || !context.responses_websocket_enabled
            ==> ceiling_notice(retry_count, max_retries, context) == Some(
            "Reconnecting... "@ + decimal(retry_count as nat) + "/"@ + decimal(max_retries as nat),
        ),
{
}

} // verus!
