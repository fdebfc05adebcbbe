//! What each operation is for, told by what goes in and what comes out: whenever
//! a function returns, the result stands in this relation to its arguments.

use crate::auth::CodexAuth;
use crate::clock::{
    is_clock_second, nanos_of, seconds_or_epoch, time_left, within_calendar, Timestamp,
};
use crate::compaction::{
    clone_injection, compact_prompt, recover_from_remote_failure, recover_manual_compaction,
    CompactionStep, InitialContextInjection, LocalCompaction, LocalFallback,
};
use crate::config::{
    config_view, env_non_empty, host_label, stored_view, workspace_tag, Config, PoolEnvironment,
    StoredConfig,
};
use crate::error::{CodexErr, CodexErrorDetails};
use crate::http::{is_success, HttpAnswer, HttpStatus};
use crate::laws::config::{each_part_has_its_source, file_counts, value_counts};
use crate::laws::ledger::{each_counter_grows_by_its_own_count, grows_by, touched_lately};
use crate::laws::lease::is_opaque;
use crate::laws::retry::{about_the_account, is_nearest};
use crate::laws::text::{read_decimal, read_hexadecimal};
use crate::ledger::{
    attach_ledger, attach_ledger_at, charged, clear_refusal, held_account_email, pending_usage,
    pruned, record_turn_usage, record_turn_usage_at, recorded, refusal_reason,
    report_account_refused, report_line, rows_view, session_cwd, set_held_account, set_session_cwd,
    Ledger, LedgerRow, LedgerView, SessionUsage, TokenUsage, UsageCounters, UsageKey,
};
use crate::lease::{
    install_if_configured, needs_token_check, open_envelope, read_lease_answer, read_release_answer,
    release_on_exit, Envelope, Installation, LeaseAttempt, LeaseCall, LeaseData, LeaseStep,
    PoolAuth, PoolError, PoolErrorView, ReleaseCall, StartupLease, TokenCheck,
};
use crate::personal_access_token::{
    authapi_base_url, hydrate_personal_access_token, is_personal_access_token, whoami_endpoint,
    PersonalAccessTokenAuth, PersonalAccessTokenMetadata, WhoamiError,
};
use crate::retry::{
    ends_the_turn, ends_the_turn_now, fallback_notice, handle_retryable_response_stream_error,
    handle_stream_error_given, honors_ceiling, humanize, is_account_scoped, leases_credentials,
    quota_resets_in, quota_resets_in_at, reject_reason, reset_wait, retry_is_allowed,
    schedule_retry, spoken, wants_fallback_transport, will_not_fix_itself, BaseDelay,
    ResponsesStreamRequest, RetryAction, RetryDecision, RetryKind, TurnContext,
};
use crate::status::{
    mark_pool_exhausted, mark_pool_serving, pool_is_exhausted, take_pool_exhaustion_notice,
    PoolStatus,
};
use crate::reading::utc_clock_said;
use crate::text::{
    decimal, decimal_text, hexadecimal_text, opt_text, same_text, starts_with, trim,
    trim_end_slashes, trimmed, without_trailing_slashes,
};
use vstd::prelude::*;
use vstd::utf8::encode_utf8;

verus! {

/// A new ledger holds nothing.
pub proof fn a_new_ledger_holds_nothing(r: Ledger)
    requires
        call_ensures(Ledger::new, (), r),
    ensures
        r.held is None && r.held_email is None && r.cwd is None && r.refusal is None,
        r@.rows.len() == 0,
{
}

/// A call adds its own counts to the counters.
pub proof fn adding_a_call_adds_its_counts(counters: &mut UsageCounters, usage: &TokenUsage)
    requires
        call_ensures(UsageCounters::add_turn, (counters, usage), ()),
    ensures
        grows_by(old(counters).requests, 1, final(counters).requests),
        grows_by(
            old(counters).input_tokens,
            usage.input_tokens as int,
            final(counters).input_tokens,
        ),
        grows_by(
            old(counters).cached_input_tokens,
            usage.cached_input_tokens as int,
            final(counters).cached_input_tokens,
        ),
        grows_by(
            old(counters).output_tokens,
            usage.output_tokens as int,
            final(counters).output_tokens,
        ),
        grows_by(
            old(counters).reasoning_tokens,
            usage.reasoning_output_tokens as int,
            final(counters).reasoning_tokens,
        ),
        grows_by(
            old(counters).total_tokens,
            usage.total_tokens as int,
            final(counters).total_tokens,
        ),
{
    each_counter_grows_by_its_own_count(*old(counters), *usage);
}

/// Recording charges the account in hand where there is one and a session, and
/// says so; else it changes nothing.
pub proof fn recording_charges_the_account_in_hand(
    ledger: &mut Ledger,
    session_id: &str,
    model: &str,
    usage: &TokenUsage,
    now: u64,
    r: bool,
)
    requires
        call_ensures(record_turn_usage_at, (ledger, session_id, model, usage, now), r),
    ensures
        r <==> session_id@.len() > 0 && old(ledger).held is Some,
        !r ==> final(ledger)@ == old(ledger)@,
        r ==> final(ledger)@ == (LedgerView {
            rows: pruned(
                charged(
                    old(ledger)@.rows,
                    UsageKey {
                        session_id: session_id@,
                        account_key: old(ledger).held->0@,
                        model: model@,
                    },
                    *usage,
                    now,
                ),
                now,
            ),
            ..old(ledger)@
        }),
{
}

/// Taking over rows keeps of the ledger everything but its rows.
pub proof fn taking_over_rows_changes_the_rows_alone(
    ledger: &mut Ledger,
    rows: Vec<LedgerRow>,
    now: u64,
)
    requires
        call_ensures(attach_ledger_at, (ledger, rows, now), ()),
    ensures
        final(ledger)@ == (LedgerView { rows: pruned(rows_view(rows@), now), ..old(ledger)@ }),
{
}

/// What is noted of the account in hand is what was said, and is read back as it
/// was said; nothing else changes.
pub proof fn the_account_in_hand_is_noted(
    ledger: &mut Ledger,
    account_key: Option<String>,
    email: Option<String>,
)
    requires
        call_ensures(set_held_account, (ledger, account_key, email), ()),
    ensures
        account_key is Some <==> final(ledger)@.held is Some,
        account_key is Some ==> final(ledger)@.held->0 == account_key->0@,
        email is Some <==> final(ledger)@.held_email is Some,
        email is Some ==> final(ledger)@.held_email->0 == email->0@,
        final(ledger)@.rows == old(ledger)@.rows,
        final(ledger)@.cwd == old(ledger)@.cwd,
        final(ledger)@.refusal == old(ledger)@.refusal,
{
}

/// Reading the ledger gives what it holds.
pub proof fn the_ledger_is_read_as_it_is(
    ledger: &Ledger,
    email: Option<String>,
    cwd: Option<String>,
    refusal: Option<String>,
    lines: Vec<SessionUsage>,
)
    requires
        call_ensures(held_account_email, (ledger,), email),
        call_ensures(session_cwd, (ledger,), cwd),
        call_ensures(refusal_reason, (ledger,), refusal),
        call_ensures(pending_usage, (ledger,), lines),
    ensures
        email is Some <==> ledger.held_email is Some,
        email is Some ==> email->0@ == ledger.held_email->0@,
        cwd is Some <==> ledger.cwd is Some,
        cwd is Some ==> cwd->0@ == ledger.cwd->0@,
        refusal is Some <==> ledger.refusal is Some,
        refusal is Some ==> refusal->0@ == ledger.refusal->0@,
        lines@.len() == ledger.rows@.len(),
        forall|i: int|
            0 <= i < lines@.len() ==> (#[trigger] lines@[i])@ == report_line(ledger.rows@[i]@),
{
    assert(crate::ledger::report_view(lines@).len() == lines@.len());
    assert forall|i: int| 0 <= i < lines@.len() implies (#[trigger] lines@[i])@ == report_line(
        ledger.rows@[i]@,
    ) by {
        assert(crate::ledger::report_view(lines@)[i] == lines@[i]@);
        assert(crate::ledger::report(ledger@.rows)[i] == report_line(ledger@.rows[i]));
    }
}

/// A refusal is noted, and a delivered one is gone; nothing else changes.
pub proof fn a_refusal_is_noted_and_cleared(
    noted: &mut Ledger,
    reason: &str,
    cleared: &mut Ledger,
)
    requires
        call_ensures(report_account_refused, (noted, reason), ()),
        call_ensures(clear_refusal, (cleared,), ()),
    ensures
        0 < trimmed(reason@).len() <= 64 ==> final(noted)@ == (LedgerView {
            refusal: Some(trimmed(reason@)),
            ..old(noted)@
        }),
        trimmed(reason@).len() > 64 ==> final(noted)@ == (LedgerView {
            refusal: Some(trimmed(reason@).take(64)),
            ..old(noted)@
        }),
        trimmed(reason@).len() == 0 ==> final(noted)@ == old(noted)@,
        final(cleared)@ == (LedgerView { refusal: None, ..old(cleared)@ }),
{
}

/// A directory is noted, unless it is blank; nothing else changes.
pub proof fn a_directory_is_noted(ledger: &mut Ledger, cwd: &str)
    requires
        call_ensures(set_session_cwd, (ledger, cwd), ()),
    ensures
        trimmed(cwd@).len() > 0 ==> final(ledger)@ == (LedgerView {
            cwd: Some(trimmed(cwd@)),
            ..old(ledger)@
        }),
        trimmed(cwd@).len() == 0 ==> final(ledger)@ == old(ledger)@,
{
}

/// The marks of the pool's status are set, taken off and read.
pub proof fn the_marks_of_the_status(
    read: &PoolStatus,
    told: bool,
    asked: &mut PoolStatus,
    due: bool,
    empty: &mut PoolStatus,
    news: bool,
    serving: &mut PoolStatus,
    over: bool,
)
    requires
        call_ensures(pool_is_exhausted, (read,), told),
        call_ensures(take_pool_exhaustion_notice, (asked,), due),
        call_ensures(mark_pool_exhausted, (empty,), news),
        call_ensures(mark_pool_serving, (serving,), over),
    ensures
        told == read.exhausted,
        due == (old(asked).exhausted && !old(asked).announced),
        final(asked).exhausted == old(asked).exhausted,
        final(asked).announced == (old(asked).announced || old(asked).exhausted),
        news == !old(empty).exhausted,
        final(empty).exhausted,
        final(empty).announced == old(empty).announced,
        over == old(serving).exhausted,
        !final(serving).exhausted,
        final(serving).announced == (old(serving).announced && !old(serving).exhausted),
{
}

/// The pool is asked with the key and at the address that are configured, or the
/// decision in hand is served.
pub proof fn asking_for_a_credential(
    pool: &PoolAuth,
    allow_stale: bool,
    ledger: &Ledger,
    now: u128,
    step: LeaseStep,
)
    requires
        call_ensures(PoolAuth::current, (pool, allow_stale, ledger, now), step),
    ensures
        step is Serve <==> {
            &&& allow_stale
            &&& ledger.refusal is None
            &&& pool.lease is Some
            &&& now < pool.lease->0.decided_at + 1_000_000_000
        },
        step matches LeaseStep::Serve(auth) ==> auth@ == pool.lease->0.auth@,
        step matches LeaseStep::Ask { attempt, call } ==> {
            &&& attempt.allow_stale == allow_stale
            &&& attempt.refused == ledger.refusal is Some
            &&& call.url@ == pool.config.base_url@ + "/x8Rk3Nq6Vd2/lease"@
            &&& call.key@ == pool.config.key@
            &&& call.request.device_id@ == pool.config.device_id@
            &&& call.request.account_key is Some <==> pool.lease is Some
            &&& pool.lease matches Some(lease) ==> call.request.account_key->0@
                == lease.account_key@
            &&& call.request@.want_account == pool@.config.want_account
            &&& call.request@.cwd == ledger@.cwd
            &&& ledger.refusal matches Some(reason) ==> call.request.reject is Some
                && call.request.reject->0@ == reason@
            &&& ledger.refusal is None && !allow_stale ==> call.request.reject is Some
                && call.request.reject->0@ == "unauthorized"@
            &&& ledger.refusal is None && allow_stale ==> call.request.reject is None
            &&& call.request@.sessions.len() == ledger.rows@.len()
            &&& forall|i: int|
                0 <= i < ledger.rows@.len() ==> #[trigger] call.request@.sessions[i]
                    == report_line(ledger.rows@[i]@)
        },
{
    crate::laws::lease::requests_go_below_the_configured_address(pool@.config);
    crate::laws::text::optional_text_is_seen_as_it_is(ledger.refusal, None);
    if let LeaseStep::Ask { attempt, call } = step {
        crate::laws::text::optional_text_is_seen_as_it_is(call.request.account_key, None);
        crate::laws::text::optional_text_is_seen_as_it_is(call.request.reject, None);
        assert forall|i: int|
            0 <= i < ledger.rows@.len() implies #[trigger] call.request@.sessions[i] == report_line(ledger.rows@[i]@) by {
            assert(call.request@.sessions[i] == crate::ledger::report(ledger@.rows)[i]);
        }
    }
}

/// A request for a credential may be served at once, one after a 401 may not.
pub proof fn resolving_and_refreshing(
    pool: &PoolAuth,
    ledger: &Ledger,
    now: u128,
    resolved: LeaseStep,
    refreshed: LeaseStep,
)
    requires
        call_ensures(PoolAuth::resolve, (pool, ledger, now), resolved),
        call_ensures(PoolAuth::refresh, (pool, ledger, now), refreshed),
    ensures
        resolved is Serve <==> ledger.refusal is None && pool.lease is Some && now
            < pool.lease->0.decided_at + 1_000_000_000,
        resolved matches LeaseStep::Ask { attempt, call } ==> attempt.allow_stale && call.url@
            == pool.config.base_url@ + "/x8Rk3Nq6Vd2/lease"@ && call.request@.reject
            == ledger@.refusal,
        refreshed is Ask,
        refreshed matches LeaseStep::Ask { attempt, call } ==> !attempt.allow_stale && call.url@
            == pool.config.base_url@ + "/x8Rk3Nq6Vd2/lease"@ && call.request.reject is Some,
{
    crate::laws::lease::requests_go_below_the_configured_address(pool@.config);
}

/// What becomes of the pool's answer: the credential in hand, the error, and what
/// is kept of the account.
pub proof fn settling_an_answer(
    pool: &mut PoolAuth,
    attempt: LeaseAttempt,
    reply: Result<Option<LeaseData>, PoolError>,
    tokens: TokenCheck,
    ledger: &mut Ledger,
    status: &mut PoolStatus,
    now: u128,
    r: Result<CodexAuth, PoolError>,
)
    requires
        call_ensures(
            PoolAuth::settle,
            (pool, attempt, reply, tokens, ledger, status, now),
            r,
        ),
    ensures
        final(pool)@.config == old(pool)@.config,
        final(ledger)@.rows == old(ledger)@.rows,
        final(ledger)@.cwd == old(ledger)@.cwd,
        reply is Ok && attempt.refused ==> final(ledger)@.refusal is None,
        !(reply is Ok && attempt.refused) ==> final(ledger)@.refusal == old(ledger)@.refusal,
        reply matches Ok(None) ==> r is Err && final(pool)@.lease is None && final(ledger)@.held
            is None && final(ledger)@.held_email is None && final(status).exhausted,
        reply is Err ==> *final(status) == *old(status) && final(pool)@.lease == old(pool)@.lease,
        reply is Err ==> (r is Ok <==> old(pool)@.lease is Some && attempt.allow_stale
            && !attempt.refused),
        reply is Err && r is Ok ==> r->Ok_0@ == old(pool)@.lease->0.auth,
        reply matches Ok(Some(data)) ==> {
            &&& r is Err ==> final(pool)@.lease is None && final(ledger)@.held is None
                && *final(status) == *old(status)
            &&& r matches Ok(auth) ==> {
                &&& final(pool)@.lease is Some
                &&& final(pool)@.lease->0.account_key == data.account_key@
                &&& final(pool)@.lease->0.auth == auth@
                &&& final(pool)@.lease->0.decided_at == now
                &&& final(ledger)@.held == Some(data.account_key@)
                &&& final(ledger)@.held_email == auth@.email()
                &&& !final(status).exhausted
            }
        },
{
}

/// A credential is made of what the pool handed out: its token, its account and
/// its plan, and the mail address in the token.
pub proof fn making_a_credential(
    data: &LeaseData,
    tokens: &TokenCheck,
    r: Result<CodexAuth, PoolError>,
)
    requires
        call_ensures(PoolAuth::validate, (data, tokens), r),
    ensures
        ({
            let token = data.auth_json.tokens.access_token@;
            let account = data.auth_json.tokens.account_id;
            &&& account is None ==> r is Err
            &&& account is Some && is_opaque(token) ==> r is Ok
            &&& account is Some && !is_opaque(token) ==> (r is Ok <==> tokens is Accepted)
            &&& r matches Ok(CodexAuth::ChatgptTokens(held)) ==> {
                &&& !is_opaque(token)
                &&& held.access_token@ == token
                &&& held.account_id@ == account->0@
                &&& held@.plan == data@.plan
                &&& tokens is Accepted
                &&& held.email is Some <==> tokens->email is Some
                &&& held.email is Some ==> held.email->0@ == tokens->email->0@
            }
            &&& r matches Ok(CodexAuth::PersonalAccessToken(held)) ==> {
                &&& is_opaque(token)
                &&& held@.access_token == token
                &&& held@.metadata.chatgpt_account_id == account->0@
            }
        }),
{
    crate::laws::lease::each_lease_becomes_one_thing(data@, tokens@);
    crate::laws::lease::a_credential_carries_what_was_handed_out(data@, tokens@);
    if let Ok(CodexAuth::ChatgptTokens(held)) = r {
        crate::laws::text::optional_text_is_seen_as_it_is(held.email, None);
    }
}

/// The host looks into the token of an account, unless it is opaque.
pub proof fn looking_into_a_token(data: &LeaseData, token: &str, looks: bool, opaque: bool)
    requires
        call_ensures(needs_token_check, (data,), looks),
        call_ensures(is_personal_access_token, (token,), opaque),
    ensures
        looks <==> data.auth_json.tokens.account_id is Some && !is_opaque(
            data.auth_json.tokens.access_token@,
        ),
        opaque <==> is_opaque(token@),
{
    lemma_opaque(data.auth_json.tokens.access_token@);
    lemma_opaque(token@);
}

proof fn lemma_opaque(token: Seq<char>)
    ensures
        crate::text::begins_with(token, crate::personal_access_token::TOKEN_PREFIX@) <==> is_opaque(
            token,
        ),
{
    reveal_strlit("at-");
    crate::laws::text::a_prefix_is_what_comes_first(token, "at-"@);
    if is_opaque(token) {
        assert forall|i: int| 0 <= i < "at-"@.len() implies token[i] == #[trigger] "at-"@[i] by {}
    } else if crate::text::begins_with(token, "at-"@) {
        assert(token[0] == "at-"@[0]);
        assert(token[1] == "at-"@[1]);
        assert(token[2] == "at-"@[2]);
    }
}

/// Giving an account back: by the device, to the address for it, with everything
/// on the ledger; only where a pool was installed.
pub proof fn giving_an_account_back(
    pool: &PoolAuth,
    installed: Option<&PoolAuth>,
    ledger: &Ledger,
    call: ReleaseCall,
    r: Option<ReleaseCall>,
)
    requires
        call_ensures(PoolAuth::release, (pool, ledger), call),
        call_ensures(release_on_exit, (installed, ledger), r),
    ensures
        call.url@ == pool.config.base_url@ + "/x8Rk3Nq6Vd2/release"@,
        call.key@ == pool.config.key@,
        call.request.device_id@ == pool.config.device_id@,
        call.request@.sessions == crate::ledger::report(ledger@.rows),
        r is Some <==> installed is Some,
        r is Some ==> {
            &&& r->0.url@ == installed->0.config.base_url@ + "/x8Rk3Nq6Vd2/release"@
            &&& r->0.key@ == installed->0.config.key@
            &&& r->0.request.device_id@ == installed->0.config.device_id@
            &&& r->0.request@.sessions == crate::ledger::report(ledger@.rows)
        },
{
    crate::laws::lease::requests_go_below_the_configured_address(pool@.config);
    if let Some(pool) = installed {
        crate::laws::lease::requests_go_below_the_configured_address(pool@.config);
    }
}

/// A release went well where the pool was reached and answered with a success;
/// startup fails for good only where the host may never use the pool, and leaves
/// no shortage behind.
pub proof fn ends_of_a_lease(
    answer: Result<HttpStatus, String>,
    released: Result<(), PoolError>,
    outcome: StartupLease,
    status: &mut PoolStatus,
    installation: Installation,
)
    requires
        call_ensures(read_release_answer, (answer,), released),
        call_ensures(install_if_configured, (outcome, status), installation),
    ensures
        released is Ok <==> answer is Ok && answer->Ok_0.code / 100 == 2,
        outcome is Served <==> installation is Installed,
        outcome is RejectedPermanently <==> installation is KeptLocal,
        outcome is Failed <==> installation is InstalledLazily,
        outcome is Served ==> *final(status) == *old(status),
        !(outcome is Served) ==> !final(status).exhausted,
{
}

/// What is in hand is read as it is.
pub proof fn what_is_in_hand(
    pool: &PoolAuth,
    now: u128,
    cached: Option<CodexAuth>,
    held: Option<String>,
    recent: Option<CodexAuth>,
)
    requires
        call_ensures(PoolAuth::cached_auth, (pool,), cached),
        call_ensures(PoolAuth::held_account, (pool,), held),
        call_ensures(PoolAuth::recent_decision, (pool, now), recent),
    ensures
        cached is Some <==> pool.lease is Some,
        cached is Some ==> cached->0@ == pool.lease->0.auth@,
        held is Some <==> pool.lease is Some,
        held is Some ==> held->0@ == pool.lease->0.account_key@,
        recent is Some <==> pool.lease is Some && now < pool.lease->0.decided_at + 1_000_000_000,
        recent is Some ==> recent->0@ == pool.lease->0.auth@,
{
}

/// A configuration is read from the file and the environment.
pub proof fn reading_a_configuration(
    stored: Option<StoredConfig>,
    env: &PoolEnvironment,
    r: Option<Config>,
)
    requires
        call_ensures(Config::load, (stored, env), r),
    ensures
        r is Some <==> (value_counts(env@.url) || file_counts(stored_view(stored))) && (
        value_counts(env@.key) || file_counts(stored_view(stored))),
        r is Some && value_counts(env@.url) ==> r->0.base_url@ == without_trailing_slashes(
            trimmed(env.url->0@),
        ),
        r is Some && !value_counts(env@.url) ==> r->0.base_url@ == without_trailing_slashes(
            trimmed(stored->0.base_url@),
        ),
        r is Some && value_counts(env@.key) ==> r->0.key@ == trimmed(env.key->0@),
        r is Some && !value_counts(env@.key) ==> r->0.key@ == trimmed(stored->0.key@),
{
    each_part_has_its_source(stored_view(stored), env@);
    assert(config_view(r) is Some <==> r is Some);
}

/// A workspace is named by the hash of its path, a host by the first name that is
/// set, and a blank value by nothing.
pub proof fn naming_a_workspace(
    workspace: Option<&str>,
    tag: String,
    hostname: &Option<String>,
    computername: &Option<String>,
    host: String,
    value: &Option<String>,
    set: Option<String>,
)
    requires
        call_ensures(workspace_tag, (workspace,), tag),
        call_ensures(host_label, (hostname, computername), host),
        call_ensures(env_non_empty, (value,), set),
    ensures
        tag@.len() == 16,
        workspace is Some ==> read_hexadecimal(tag@) == crate::config::hash_of(
            encode_utf8(workspace->0@),
        ),
        workspace is None ==> read_hexadecimal(tag@) == crate::config::hash_of(
            encode_utf8("unknown"@),
        ),
        hostname is Some ==> host@ == hostname->0@,
        hostname is None && computername is Some ==> host@ == computername->0@,
        hostname is None && computername is None ==> host@ == "codext"@,
        set is Some <==> value is Some && trimmed(value->0@).len() > 0,
        set is Some ==> set->0@ == trimmed(value->0@),
{
    if let Some(path) = workspace {
        crate::laws::config::a_tag_reads_back_as_the_hash(path@);
    } else {
        crate::laws::config::a_tag_reads_back_as_the_hash("unknown"@);
    }
}

/// The account and the mail address of a credential, and its kind.
pub proof fn reading_a_credential(
    auth: &CodexAuth,
    email: Option<String>,
    account: String,
    opaque: bool,
    signed: bool,
)
    requires
        call_ensures(CodexAuth::get_account_email, (auth,), email),
        call_ensures(CodexAuth::get_account_id, (auth,), account),
        call_ensures(CodexAuth::is_personal_access_token_auth, (auth,), opaque),
        call_ensures(CodexAuth::is_external_chatgpt_tokens, (auth,), signed),
    ensures
        opaque <==> auth is PersonalAccessToken,
        signed <==> auth is ChatgptTokens,
        auth matches CodexAuth::ChatgptTokens(held) ==> {
            &&& account@ == held.account_id@
            &&& email is Some <==> held.email is Some
            &&& email is Some ==> email->0@ == held.email->0@
        },
        auth matches CodexAuth::PersonalAccessToken(held) ==> account@
            == held@.metadata.chatgpt_account_id,
{
    crate::laws::text::optional_text_is_seen_as_it_is(email, None);
}

/// A personal access token is read as it is, and shown without the token.
pub proof fn reading_a_personal_access_token(
    auth: &PersonalAccessTokenAuth,
    token: &str,
    account: &str,
    user: &str,
    email: Option<&str>,
    plan: &str,
    fedramp: bool,
    shown: PersonalAccessTokenAuth,
)
    requires
        call_ensures(PersonalAccessTokenAuth::access_token, (auth,), token),
        call_ensures(PersonalAccessTokenAuth::account_id, (auth,), account),
        call_ensures(PersonalAccessTokenAuth::chatgpt_user_id, (auth,), user),
        call_ensures(PersonalAccessTokenAuth::email, (auth,), email),
        call_ensures(PersonalAccessTokenAuth::plan_type, (auth,), plan),
        call_ensures(PersonalAccessTokenAuth::is_fedramp_account, (auth,), fedramp),
        call_ensures(PersonalAccessTokenAuth::redacted, (auth,), shown),
    ensures
        token@ == auth@.access_token,
        account@ == auth@.metadata.chatgpt_account_id,
        user@ == auth@.metadata.chatgpt_user_id,
        email is Some <==> auth@.metadata.email is Some,
        email is Some ==> email->0@ == auth@.metadata.email->0,
        plan@ == auth@.metadata.chatgpt_plan_type,
        fedramp == auth@.metadata.chatgpt_account_is_fedramp,
        shown@.access_token == "<redacted>"@,
        shown@.metadata == auth@.metadata,
{
}

/// The owner of a token is what the answer told, and an error says how far the
/// request came.
pub proof fn learning_the_owner_of_a_token(
    token: &str,
    answer: Result<HttpAnswer<PersonalAccessTokenMetadata>, String>,
    r: Result<PersonalAccessTokenAuth, WhoamiError>,
    base: &str,
    address: String,
)
    requires
        call_ensures(hydrate_personal_access_token, (token, answer), r),
        call_ensures(whoami_endpoint, (base,), address),
    ensures
        r is Ok <==> answer is Ok && answer->Ok_0.status.code / 100 == 2 && answer->Ok_0.content
            is Ok,
        r is Ok ==> r->Ok_0@.access_token == token@ && r->Ok_0@.metadata
            == answer->Ok_0.content->Ok_0@,
        answer matches Err(cause) ==> r == Err::<PersonalAccessTokenAuth, WhoamiError>(
            WhoamiError::Request(cause),
        ),
        answer matches Ok(got) ==> {
            &&& got.status.code / 100 != 2 ==> r == Err::<PersonalAccessTokenAuth, WhoamiError>(
                WhoamiError::Status(got.status.line),
            )
            &&& got.status.code / 100 == 2 ==> (got.content matches Err(cause) ==> r
                == Err::<PersonalAccessTokenAuth, WhoamiError>(WhoamiError::Decode(cause)))
        },
        address@ == without_trailing_slashes(base@) + "/v1/user-auth-credential/whoami"@,
{
}

/// Which errors end a turn, told by their variants.
pub proof fn ending_a_turn(
    err: &CodexErr,
    context: &TurnContext,
    status: &PoolStatus,
    ledger: &Ledger,
    ends: bool,
    now: bool,
)
    requires
        call_ensures(ends_the_turn, (err,), ends),
        call_ensures(ends_the_turn_now, (err, context, status, ledger), now),
    ensures
        ends <==> err.details is TurnAborted || err.details is Interrupted || err.details
            is ContextWindowExceeded || err.details is SessionBudgetExceeded || err.details
            is CyberPolicy,
        now <==> ends || (context.stream_max_retries is Some && !err.retryable
            && !about_the_account(*err, ledger@) && !status.exhausted),
{
}

/// How an error and its context are classified.
pub proof fn classifying_an_error(
    err: &CodexErr,
    context: &TurnContext,
    ledger: &Ledger,
    trust: bool,
    scoped: bool,
    limited: bool,
    leases: bool,
    lasting: bool,
)
    requires
        call_ensures(is_account_scoped, (err, ledger), scoped),
        call_ensures(honors_ceiling, (context,), limited),
        call_ensures(leases_credentials, (context,), leases),
        call_ensures(will_not_fix_itself, (err, trust), lasting),
    ensures
        scoped <==> about_the_account(*err, ledger@),
        limited <==> context.stream_max_retries is Some,
        leases <==> context.external_auth is Some && context.external_auth->0,
        err.details is UnexpectedStatus ==> (lasting <==> trust && err.http_status is Some
            && err.http_status->0 / 100 == 4 && err.http_status->0 != 408 && err.http_status->0
            != 409 && err.http_status->0 != 425 && err.http_status->0 != 429),
        err.details is Timeout || err.details is RequestTimeout || err.details is Stream
            || err.details is InternalServerError || err.details is ServerOverloaded || err.details
            is UsageLimitReached || err.details is RetryLimit || err.details is Other ==> !lasting,
        err.details is InvalidRequest || err.details is QuotaExceeded || err.details
            is UsageNotIncluded ==> lasting,
{
}

/// Whether a request is retried, and whether over another transport.
pub proof fn retrying_a_request(
    err: &CodexErr,
    retries: u64,
    max_retries: u64,
    request: ResponsesStreamRequest,
    unbounded: bool,
    status: &PoolStatus,
    ledger: &Ledger,
    allowed: bool,
    channel: bool,
    rendered: &str,
    notice: String,
)
    requires
        call_ensures(
            retry_is_allowed,
            (err, retries, max_retries, request, unbounded, status, ledger),
            allowed,
        ),
        call_ensures(wants_fallback_transport, (err, retries, max_retries), channel),
        call_ensures(fallback_notice, (rendered,), notice),
    ensures
        request is Sampling && unbounded ==> (allowed <==> !(err.details is TurnAborted
            || err.details is Interrupted || err.details is ContextWindowExceeded || err.details
            is SessionBudgetExceeded || err.details is CyberPolicy)),
        !(request is Sampling && unbounded) ==> (allowed <==> about_the_account(*err, ledger@)
            || status.exhausted || err.details is ServerOverloaded || retries < max_retries),
        channel <==> retries >= max_retries && (err.retryable || err.details is ServerOverloaded),
        notice@ == "Falling back from WebSockets to HTTPS transport. "@ + rendered@,
{
}

/// How long a retry waits and what is said of it.
pub proof fn carrying_out_a_retry(
    kind: Option<RetryKind>,
    base: u128,
    retry_count: u64,
    max_retries: u64,
    context: &TurnContext,
    status: &mut PoolStatus,
    r: RetryAction,
)
    requires
        call_ensures(
            schedule_retry,
            (kind, base, retry_count, max_retries, context, status),
            r,
        ),
    ensures
        kind is None ==> {
            &&& r.delay == base
            &&& *final(status) == *old(status)
            &&& r.notice is Some <==> retry_count > 1 || context.debug_build
                || !context.responses_websocket_enabled
            &&& r.notice is Some ==> r.notice->0@ == "Reconnecting... "@ + decimal(
                retry_count as nat,
            ) + "/"@ + decimal(max_retries as nat)
        },
        kind == Some(RetryKind::PoolExhausted) ==> {
            &&& r.delay == 30_000_000_000
            &&& r.notice is Some <==> old(status).exhausted && !old(status).announced
        },
        kind == Some(RetryKind::SwapAccount) ==> {
            &&& is_nearest(r.delay, base, 6_000_000_000, 60_000_000_000)
            &&& r.notice is Some <==> retry_count == 1
        },
        kind == Some(RetryKind::Stuck) ==> {
            &&& is_nearest(r.delay, base, 1_000_000_000, 60_000_000_000)
            &&& r.notice is Some <==> retry_count == 1
        },
        kind matches Some(some) ==> r.notice is Some ==> r.notice->0@ == some.text(),
        kind is Some && !(kind->0 is PoolExhausted) ==> *final(status) == *old(status),
{
    crate::laws::text::optional_text_is_seen_as_it_is(r.notice, None);
}

/// How much time is left until a quota resets, and how it is said.
pub proof fn waiting_for_a_quota_window(
    err: &CodexErr,
    now: Timestamp,
    left: Option<u128>,
    wait: u128,
    words: String,
)
    requires
        call_ensures(quota_resets_in_at, (err, now), left),
        call_ensures(humanize, (wait,), words),
        within_calendar(now.since_epoch()),
    ensures
        !(err.details is UsageLimitReached) ==> left is None,
        err.details matches CodexErrorDetails::UsageLimitReached { resets_at } ==> {
            &&& resets_at is None ==> left is None
            &&& resets_at matches Some(moment) ==> within_calendar(
                moment.since_epoch(),
            ) ==> {
                &&& left is Some <==> now.since_epoch() <= moment.since_epoch()
                &&& left is Some ==> now.since_epoch() + left->0 == moment.since_epoch()
            }
        },
        wait < 60_000_000_000 ==> words@ == "a minute"@,
        words@ == spoken(wait),
{
}

/// A remote compaction that failed goes on locally, unless the user stopped it.
pub proof fn recovering_a_compaction(
    err: &CodexErr,
    rendered: &str,
    auto_ledger: &mut Ledger,
    automatic: Option<LocalFallback>,
    manual_ledger: &mut Ledger,
    manual: Option<LocalFallback>,
)
    requires
        call_ensures(recover_from_remote_failure, (err, rendered, auto_ledger), automatic),
        call_ensures(recover_manual_compaction, (err, rendered, manual_ledger), manual),
    ensures
        automatic is None <==> err.details is TurnAborted || err.details is Interrupted,
        manual is None <==> err.details is TurnAborted || err.details is Interrupted,
        automatic is Some ==> !automatic->0.manual && automatic->0.warning@
            == "Remote compaction failed; compacting locally instead. "@ + rendered@,
        manual is Some ==> manual->0.manual && manual->0.warning@
            == "Remote compaction failed; compacting locally instead. "@ + rendered@,
        final(auto_ledger)@ == (if about_the_account(*err, old(auto_ledger)@) {
            LedgerView { refusal: crate::retry::reason_of(*err), ..old(auto_ledger)@ }
        } else {
            old(auto_ledger)@
        }),
        final(manual_ledger)@ == (if about_the_account(*err, old(manual_ledger)@) {
            LedgerView { refusal: crate::retry::reason_of(*err), ..old(manual_ledger)@ }
        } else {
            old(manual_ledger)@
        }),
{
    crate::laws::retry::a_refusal_changes_the_refusal_alone(old(auto_ledger)@, *err);
    crate::laws::retry::a_refusal_changes_the_refusal_alone(old(manual_ledger)@, *err);
}

/// A local compaction goes on after every error but the user's stop, waits longer
/// each time, and speaks of its first failure alone.
pub proof fn compacting_locally(
    compaction: &mut LocalCompaction,
    outcome: Result<(), &CodexErr>,
    rendered: &str,
    step: CompactionStep,
    fresh: LocalCompaction,
)
    requires
        call_ensures(LocalCompaction::attempted, (compaction, outcome, rendered), step),
        call_ensures(LocalCompaction::new, (), fresh),
    ensures
        step is Done <==> outcome is Ok,
        step is GiveUp <==> outcome is Err && (outcome->Err_0.details is TurnAborted
            || outcome->Err_0.details is Interrupted),
        step matches CompactionStep::Retry { warning, delay } ==> {
            &&& delay == old(compaction).next_delay()
            &&& warning is Some <==> !old(compaction).has_spoken()
            &&& warning is Some ==> warning->0@
                == "Compaction failed and will keep retrying until it succeeds; press Esc to stop. "@
                + rendered@
            &&& final(compaction).has_spoken()
            &&& delay <= 60_000_000_000 ==> final(compaction).next_delay() == 2 * delay
            &&& delay >= 60_000_000_000 ==> final(compaction).next_delay() == 120_000_000_000
        },
        !(step is Retry) ==> *final(compaction) == *old(compaction),
        fresh.next_delay() == 30_000_000_000,
        !fresh.has_spoken(),
{
    if let CompactionStep::Retry { warning, delay } = step {
        crate::laws::text::optional_text_is_seen_as_it_is(warning, None);
    }
}

/// What an attempt is given: the same injection again, and the configured prompt
/// before the host's own.
pub proof fn preparing_an_attempt<W, S>(
    injection: &InitialContextInjection<W, S>,
    copy: InitialContextInjection<W, S>,
    configured: Option<&str>,
    own: &str,
    prompt: String,
)
    requires
        call_ensures(clone_injection::<W, S>, (injection,), copy),
        call_ensures(compact_prompt, (configured, own), prompt),
    ensures
        copy == *injection,
        configured is Some ==> prompt@ == configured->0@,
        configured is None ==> prompt@ == own@,
{
}

/// Moments, seconds and statuses are read as they are.
pub proof fn reading_numbers(
    seconds: i64,
    nanos: u32,
    moment: Option<Timestamp>,
    reading: Option<u64>,
    second: u64,
    status: u16,
    success: bool,
)
    requires
        call_ensures(Timestamp::new, (seconds, nanos), moment),
        call_ensures(seconds_or_epoch, (reading,), second),
        call_ensures(is_success, (status,), success),
    ensures
        moment is Some <==> -8_334_601_228_800 <= seconds <= 8_210_266_876_799 && nanos
            < 1_000_000_000,
        moment is Some ==> moment->0.since_epoch() == seconds * 1_000_000_000 + nanos,
        reading is Some ==> second == reading->0,
        reading is None ==> second == 0,
        success <==> status / 100 == 2,
{
}

/// The time until a quota resets is counted from what the UTC clock said.
pub proof fn a_quota_window_is_counted_from_the_present(
    err: &CodexErr,
    moment: Timestamp,
    left: Option<u128>,
)
    requires
        call_ensures(quota_resets_in, (err,), left),
        err.details == (CodexErrorDetails::UsageLimitReached { resets_at: Some(moment) }),
        within_calendar(moment.since_epoch()),
    ensures
        exists|seconds: i64, nanos: u32|
            {
                let now = seconds * 1_000_000_000 + nanos;
                &&& #[trigger] utc_clock_said(seconds, nanos)
                &&& left is None ==> moment.since_epoch() < now
                &&& left is Some && within_calendar(now) ==> now + left->0 == moment.since_epoch()
            },
{
    let now = choose|now: Timestamp| now.is_present() && left == #[trigger] reset_wait(*err, now);
    let (seconds, nanos) = choose|seconds: i64, nanos: u32| #[trigger]
        utc_clock_said(seconds, nanos) && now.since_epoch() == nanos_of(seconds, nanos);
    assert(utc_clock_said(seconds, nanos));
}

/// A retry that waits for a quota counts from what the UTC clock said, whichever
/// function works it out.
pub proof fn a_retry_is_counted_from_the_present(
    err: &CodexErr,
    context: &TurnContext,
    status: &PoolStatus,
    kind_ledger: &mut Ledger,
    kind: RetryKind,
    retries: &mut u64,
    max_retries: u64,
    switched: bool,
    request: ResponsesStreamRequest,
    ledger: &mut Ledger,
    chosen: RetryDecision,
    moment: Timestamp,
)
    requires
        call_ensures(RetryKind::of, (err, context, status, kind_ledger), kind),
        call_ensures(
            handle_retryable_response_stream_error,
            (retries, max_retries, err, switched, context, request, status, ledger),
            chosen,
        ),
        err.details == (CodexErrorDetails::UsageLimitReached { resets_at: Some(moment) }),
    ensures
        kind matches RetryKind::QuotaWindow { resets_in } ==> exists|now: Timestamp|
            now.is_present() && resets_in == #[trigger] time_left(
                moment.since_epoch(),
                now.since_epoch(),
            ),
        chosen matches RetryDecision::Retry {
            kind: Some(RetryKind::QuotaWindow { resets_in }),
            ..
        } ==> exists|now: Timestamp|
            now.is_present() && resets_in == #[trigger] time_left(
                moment.since_epoch(),
                now.since_epoch(),
            ),
{
    if let RetryKind::QuotaWindow { resets_in } = kind {
        let now = choose|now: Timestamp|
            now.is_present() && resets_in == #[trigger] reset_wait(*err, now);
        assert(resets_in == time_left(moment.since_epoch(), now.since_epoch()));
    }
    if let RetryDecision::Retry { kind: Some(RetryKind::QuotaWindow { resets_in }), .. } = chosen {
        let now = choose|now: Timestamp|
            now.is_present() && resets_in == #[trigger] reset_wait(*err, now);
        assert(resets_in == time_left(moment.since_epoch(), now.since_epoch()));
    }
}

/// Usage is dated, and rows are taken over, by what the system clock said.
pub proof fn the_ledger_goes_by_the_system_clock(
    charged_ledger: &mut Ledger,
    session_id: &str,
    model: &str,
    usage: &TokenUsage,
    r: bool,
    ledger: &mut Ledger,
    rows: Vec<LedgerRow>,
)
    requires
        call_ensures(record_turn_usage, (charged_ledger, session_id, model, usage), r),
        call_ensures(attach_ledger, (ledger, rows), ()),
    ensures
        r <==> session_id@.len() > 0 && old(charged_ledger).held is Some,
        !r ==> final(charged_ledger)@ == old(charged_ledger)@,
        r ==> exists|now: u64|
            is_clock_second(now) && final(charged_ledger)@ == (LedgerView {
                rows: #[trigger] pruned(
                    charged(
                        old(charged_ledger)@.rows,
                        UsageKey {
                            session_id: session_id@,
                            account_key: old(charged_ledger).held->0@,
                            model: model@,
                        },
                        *usage,
                        now,
                    ),
                    now,
                ),
                ..old(charged_ledger)@
            }),
        exists|now: u64|
            is_clock_second(now) && final(ledger)@ == (LedgerView {
                rows: #[trigger] pruned(rows_view(rows@), now),
                ..old(ledger)@
            }),
{
    if r {
        let key = UsageKey {
            session_id: session_id@,
            account_key: old(charged_ledger).held->0@,
            model: model@,
        };
        let now = choose|now: u64|
            is_clock_second(now) && final(charged_ledger)@ == #[trigger] recorded(
                old(charged_ledger)@,
                session_id@,
                model@,
                *usage,
                now,
            );
        assert(final(charged_ledger)@.rows == pruned(
            charged(old(charged_ledger)@.rows, key, *usage, now),
            now,
        ));
    }
}

/// A pruned ledger loses rows alone, and those only that were not touched for six
/// hours or that more than a full ledger of newer ones has pushed out.
pub proof fn pruning_drops_rows_alone(ledger: &mut Ledger, now: u64)
    requires
        call_ensures(Ledger::prune, (ledger, now), ()),
    ensures
        final(ledger)@ == (LedgerView { rows: final(ledger)@.rows, ..old(ledger)@ }),
        touched_lately(old(ledger)@.rows, now).len() <= 500 ==> final(ledger)@.rows
            == touched_lately(old(ledger)@.rows, now),
        final(ledger)@.rows.len() <= 500,
{
    crate::laws::ledger::a_row_is_recent_for_six_hours(old(ledger)@.rows, now);
    crate::laws::ledger::a_long_ledger_is_cut_to_its_newest_rows(old(ledger)@.rows, now);
    crate::laws::ledger::pruning_bounds_the_ledger(old(ledger)@.rows, now);
}

/// A new side of the pool has its configuration and no account; a request for an
/// account carries what it is given.
pub proof fn starting_with_the_pool(
    config: Config,
    fresh: PoolAuth,
    calm: PoolStatus,
    pool: &PoolAuth,
    account_key: Option<String>,
    reject: Option<String>,
    ledger: &Ledger,
    call: LeaseCall,
)
    requires
        call_ensures(PoolAuth::new, (config,), fresh),
        call_ensures(PoolStatus::new, (), calm),
        call_ensures(PoolAuth::post, (pool, account_key, reject, ledger), call),
    ensures
        fresh@.config == config@,
        fresh.lease is None,
        !calm.exhausted && !calm.announced,
        call.url@ == pool.config.base_url@ + "/x8Rk3Nq6Vd2/lease"@,
        call.key@ == pool.config.key@,
        call.request.device_id@ == pool.config.device_id@,
        call.request@.account_key == opt_text(account_key),
        call.request@.reject == opt_text(reject),
        call.request@.want_account == pool@.config.want_account,
        call.request@.cwd == ledger@.cwd,
{
    crate::laws::lease::requests_go_below_the_configured_address(pool@.config);
}

/// What the pool answered, read from the answer's status and its envelope.
pub proof fn reading_the_answer_to_a_lease(
    answer: Result<HttpAnswer<Envelope>, String>,
    r: Result<Option<LeaseData>, PoolError>,
    envelope: Envelope,
    opened: Result<Option<LeaseData>, PoolError>,
)
    requires
        call_ensures(read_lease_answer, (answer,), r),
        call_ensures(open_envelope, (envelope,), opened),
    ensures
        r is Ok <==> answer is Ok && answer->Ok_0.status.code / 100 == 2 && answer->Ok_0.content
            is Ok && answer->Ok_0.content->Ok_0.code == 0,
        r is Ok ==> {
            let data = answer->Ok_0.content->Ok_0.data;
            &&& r->Ok_0 is Some <==> data is Some
            &&& data is Some ==> r->Ok_0->0@ == data->0@
        },
        answer matches Err(cause) ==> r is Err && r->Err_0 is Unreachable && r->Err_0@
            == PoolErrorView::Unreachable(cause@),
        opened is Ok <==> envelope.code == 0,
        opened is Ok ==> (opened->Ok_0 is Some <==> envelope.data is Some),
        opened is Ok && envelope.data is Some ==> opened->Ok_0->0@ == envelope.data->0@,
        envelope.code != 0 && envelope.message is Some ==> opened->Err_0@
            == PoolErrorView::LeaseRejected(envelope.message->0@),
        envelope.code != 0 && envelope.message is None ==> opened->Err_0@
            == PoolErrorView::LeaseRejected(Seq::empty()),
{
}

/// The user of an account key is what stands before its first separator.
pub proof fn reading_the_user_of_a_key(account_key: &str, user: &str, at: int)
    requires
        call_ensures(PoolAuth::user_id_of, (account_key,), user),
        0 <= at,
        at + 1 < account_key@.len(),
        account_key@[at] == ':' && account_key@[at + 1] == ':',
        forall|i: int|
            0 <= i < at ==> !(#[trigger] account_key@[i] == ':' && account_key@[i + 1] == ':'),
    ensures
        user@ == account_key@.take(at),
{
    crate::laws::lease::the_first_separator_decides(account_key@, at);
}

/// A token from outside carries what was told of it, and the address to ask at is
/// the configured one.
pub proof fn putting_a_token_together(
    token: &str,
    user: &str,
    account: &str,
    plan: Option<&str>,
    r: PersonalAccessTokenAuth,
    configured: Option<&str>,
    base: String,
)
    requires
        call_ensures(PersonalAccessTokenAuth::from_external, (token, user, account, plan), r),
        call_ensures(authapi_base_url, (configured,), base),
    ensures
        r@.access_token == token@,
        r@.metadata.chatgpt_user_id == user@,
        r@.metadata.chatgpt_account_id == account@,
        plan is Some ==> r@.metadata.chatgpt_plan_type == plan->0@,
        plan is None ==> r@.metadata.chatgpt_plan_type == "unknown"@,
        r@.metadata.email is None,
        !r@.metadata.chatgpt_account_is_fedramp,
        configured is Some && without_trailing_slashes(trimmed(configured->0@)).len() > 0
            ==> base@ == without_trailing_slashes(trimmed(configured->0@)),
        !(configured is Some && without_trailing_slashes(trimmed(configured->0@)).len() > 0)
            ==> base@ == "https://auth.openai.com/api/accounts"@,
{
}

/// An error is told in words that name what failed.
pub proof fn telling_an_error(
    error: &PoolError,
    words: String,
    whoami: &WhoamiError,
    whoami_words: String,
)
    requires
        call_ensures(PoolError::message, (error,), words),
        call_ensures(WhoamiError::message, (whoami,), whoami_words),
    ensures
        error is NoAccountAvailable ==> words@ == "no account available in the pool"@,
        error is MissingAccountId ==> words@
            == "pool returned credentials without a chatgpt account id"@,
        error matches PoolError::Unreachable(cause) ==> words@ == cause@,
        error matches PoolError::LeaseFailed { status, body } ==> words@ == "pool lease failed: "@
            + status@ + ": "@ + body@,
        error matches PoolError::Undecodable(cause) ==> words@ == cause@,
        error matches PoolError::LeaseRejected(message) ==> words@ == "pool lease rejected: "@
            + message@,
        error matches PoolError::InvalidTokens(cause) ==> words@ == cause@,
        error matches PoolError::ReleaseFailed(status) ==> words@ == "pool release failed: "@
            + status@,
        whoami matches WhoamiError::Request(cause) ==> whoami_words@
            == "failed to request personal access token metadata: "@ + cause@,
        whoami matches WhoamiError::Status(status) ==> whoami_words@
            == "personal access token metadata request failed with status "@ + status@,
        whoami matches WhoamiError::Decode(cause) ==> whoami_words@
            == "failed to decode personal access token metadata: "@ + cause@,
{
}

/// Each failure that another account gets past has its own reason.
pub proof fn naming_a_reason(err: &CodexErr, reason: Option<&'static str>)
    requires
        call_ensures(reject_reason, (err,), reason),
    ensures
        err.details is UsageLimitReached ==> reason is Some && reason->0@ == "usage_limit"@,
        err.details is QuotaExceeded ==> reason is Some && reason->0@ == "quota_exceeded"@,
        err.details is UsageNotIncluded ==> reason is Some && reason->0@ == "usage_not_included"@,
        err.details matches CodexErrorDetails::RetryLimit { status } ==> (reason is Some
            <==> status == 429),
        err.details is RetryLimit && reason is Some ==> reason->0@ == "retry_limit_429"@,
        !(err.details is UsageLimitReached || err.details is QuotaExceeded || err.details
            is UsageNotIncluded || err.details is RetryLimit) ==> reason is None,
{
    crate::laws::text::optional_text_is_seen_as_it_is(None, reason);
}

/// How a kind of retry is carried out, step by step.
pub proof fn carrying_out_a_kind(
    kind: RetryKind,
    base: u128,
    retry_count: u64,
    max_retries: u64,
    delay: u128,
    context: &TurnContext,
    status: &mut PoolStatus,
    reports: bool,
    words: String,
    log: Option<&'static str>,
)
    requires
        call_ensures(RetryKind::delay, (kind, base, retry_count, max_retries), delay),
        call_ensures(RetryKind::should_report, (kind, retry_count, context, status), reports),
        call_ensures(RetryKind::message, (kind,), words),
        call_ensures(RetryKind::waiting_for, (kind,), log),
    ensures
        kind is PoolExhausted ==> delay == 30_000_000_000,
        kind is SwapAccount ==> is_nearest(delay, base, 6_000_000_000, 60_000_000_000),
        kind is Stuck ==> is_nearest(delay, base, 1_000_000_000, 60_000_000_000),
        kind matches RetryKind::QuotaWindow { resets_in: Some(wait) } ==> is_nearest(
            delay,
            wait,
            60_000_000_000,
            600_000_000_000,
        ),
        kind == (RetryKind::QuotaWindow { resets_in: None }) ==> delay == 600_000_000_000,
        kind is Capacity || kind is Transient ==> is_nearest(
            delay,
            base,
            if retry_count > max_retries {
                1_000_000_000
            } else {
                0
            },
            60_000_000_000,
        ),
        kind is PoolExhausted ==> reports == (old(status).exhausted && !old(status).announced),
        kind is Transient && !context.debug_build && context.responses_websocket_enabled ==> (
        reports <==> retry_count == 2),
        kind is Transient && (context.debug_build || !context.responses_websocket_enabled) ==> (
        reports <==> retry_count == 1),
        kind is SwapAccount || kind is QuotaWindow || kind is Capacity || kind is Stuck ==> (
        reports <==> retry_count == 1),
        final(status).exhausted == old(status).exhausted,
        kind is PoolExhausted ==> final(status).announced == (old(status).announced || old(
            status,
        ).exhausted),
        !(kind is PoolExhausted) ==> *final(status) == *old(status),
        words@ == kind.text(),
        log is None <==> kind is Transient,
        kind is PoolExhausted ==> log->0@ == "account pool has nothing to lease"@,
        kind is SwapAccount ==> log->0@ == "account is out of quota - leasing another one"@,
        kind is QuotaWindow ==> log->0@
            == "account is out of quota and there is no pool to swap to"@,
        kind is Capacity ==> log->0@ == "selected model is at capacity"@,
        kind is Stuck ==> log->0@ == "request will not recover on its own"@,
{
    crate::laws::text::optional_text_is_seen_as_it_is(None, log);
}

/// What becomes of a failed request, and how its retries are counted.
pub proof fn deciding_on_a_failed_request(
    retries: &mut u64,
    max_retries: u64,
    err: &CodexErr,
    switched: bool,
    context: &TurnContext,
    request: ResponsesStreamRequest,
    status: &PoolStatus,
    ledger: &mut Ledger,
    resets_in: Option<u128>,
    chosen: RetryDecision,
)
    requires
        call_ensures(
            handle_stream_error_given,
            (
                retries,
                max_retries,
                err,
                switched,
                context,
                request,
                status,
                ledger,
                resets_in,
            ),
            chosen,
        ),
    ensures
        chosen is SwitchedTransport <==> switched && *old(retries) >= max_retries && (err.retryable
            || err.details is ServerOverloaded),
        chosen is SwitchedTransport ==> *final(retries) == 0,
        chosen is GiveUp ==> *final(retries) == *old(retries),
        chosen is Retry && *old(retries) < u64::MAX ==> *final(retries) == *old(retries) + 1,
        chosen is Retry && *old(retries) == u64::MAX ==> *final(retries) == u64::MAX,
        ({
            let channel = switched && *old(retries) >= max_retries && (err.retryable || err.details
                is ServerOverloaded);
            let pool_or_account = about_the_account(*err, old(ledger)@) || status.exhausted;
            let unlimited = pool_or_account || context.stream_max_retries is None;
            let over = err.details is TurnAborted || err.details is Interrupted || err.details
                is ContextWindowExceeded || err.details is SessionBudgetExceeded || err.details
                is CyberPolicy;
            chosen is GiveUp <==> !channel && (if request is Sampling && unlimited {
                over
            } else {
                !pool_or_account && !(err.details is ServerOverloaded) && *old(retries)
                    >= max_retries
            })
        }),
        chosen matches RetryDecision::Retry { kind, base } ==> {
            &&& kind is Some <==> about_the_account(*err, old(ledger)@) || status.exhausted
                || context.stream_max_retries is None
            &&& kind is Some && status.exhausted ==> kind->0 is PoolExhausted
            &&& err.retry_delay matches Some(asked) ==> base == BaseDelay::Asked(asked)
            &&& err.retry_delay is None ==> base is BackOff
        },
        final(ledger)@ == (LedgerView { refusal: final(ledger)@.refusal, ..old(ledger)@ }),
        chosen is SwitchedTransport || status.exhausted || !about_the_account(*err, old(ledger)@)
            ==> final(ledger)@ == old(ledger)@,
{
    crate::laws::retry::what_becomes_of_a_failed_request(
        *err,
        *old(retries),
        max_retries,
        switched,
        *context,
        request,
        *status,
        old(ledger)@,
        resets_in,
    );
    crate::laws::retry::retries_are_counted_one_by_one(*old(retries), max_retries);
    crate::laws::retry::a_refusal_changes_the_refusal_alone(old(ledger)@, *err);
}

/// Text is trimmed, cut, compared and written out as it is meant to be.
pub proof fn working_on_text(
    s: &str,
    prefix: &str,
    trim_result: &str,
    cut: &str,
    starts: bool,
    same: bool,
    n: u128,
    written: String,
    hash: u64,
    digits: String,
)
    requires
        call_ensures(trim, (s,), trim_result),
        call_ensures(trim_end_slashes, (s,), cut),
        call_ensures(starts_with, (s, prefix), starts),
        call_ensures(same_text, (s, prefix), same),
        call_ensures(decimal_text, (n,), written),
        call_ensures(hexadecimal_text, (hash, 16), digits),
    ensures
        trim_result@ == trimmed(s@),
        cut@ == without_trailing_slashes(s@),
        starts <==> prefix@.len() <= s@.len() && forall|i: int|
            0 <= i < prefix@.len() ==> s@[i] == #[trigger] prefix@[i],
        same <==> s@ == prefix@,
        read_decimal(written@) == n,
        digits@.len() == 16,
        read_hexadecimal(digits@) == hash,
{
    crate::laws::text::a_prefix_is_what_comes_first(s@, prefix@);
    crate::laws::text::decimal_notation_reads_back(n as nat);
    crate::laws::text::lemma_sixteen_digits();
    crate::laws::text::hexadecimal_notation_reads_back(hash as nat, 16);
}

/// The time from one moment to another leads from the one to the other.
pub proof fn measuring_time(moment: Timestamp, now: Timestamp, left: Option<u128>)
    requires
        call_ensures(Timestamp::remaining, (moment, now), left),
        within_calendar(moment.since_epoch()),
        within_calendar(now.since_epoch()),
    ensures
        left is Some <==> now.since_epoch() <= moment.since_epoch(),
        left is Some ==> now.since_epoch() + left->0 == moment.since_epoch(),
{
}

} // verus!
