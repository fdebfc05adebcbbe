//! What contracts see of a value: every part of it, as it is.

use crate::auth::{AuthView, ChatgptTokens, CodexAuth};
use crate::config::{config_view, stored_view, Config, PoolEnvironment, StoredConfig};
use crate::ledger::{
    report_view, rows_view, Ledger, LedgerRow, SessionUsage, UsageCounters,
};
use crate::lease::{
    outcome_view, reply_view, state_of, Lease, LeaseData, PoolAuth, PoolError, PoolErrorView,
    PoolRequest, ReleaseRequest, TokenCheck, TokenCheckView,
};
use crate::personal_access_token::{PersonalAccessTokenMetadata, PersonalAccessTokenView};
use crate::status::PoolStatus;
use vstd::prelude::*;

verus! {

/// Whether an optional text is seen as it is.
pub open spec fn same(seen: Option<Seq<char>>, o: Option<String>) -> bool {
    &&& seen is Some <==> o is Some
    &&& o is Some ==> seen->0 == o->0@
}

/// A row of the ledger is seen whole.
pub proof fn a_row_is_seen_whole(row: LedgerRow)
    ensures
        row@.key.session_id == row.session_id@,
        row@.key.account_key == row.account_key@,
        row@.key.model == row.model@,
        row@.counters == row.counters,
        row@.updated_at == row.updated_at,
{
}

/// A ledger is seen whole, row by row.
pub proof fn a_ledger_is_seen_whole(ledger: Ledger)
    ensures
        same(ledger@.held, ledger.held),
        same(ledger@.held_email, ledger.held_email),
        same(ledger@.cwd, ledger.cwd),
        same(ledger@.refusal, ledger.refusal),
        ledger@.rows.len() == ledger.rows@.len(),
        forall|i: int|
            0 <= i < ledger.rows@.len() ==> #[trigger] ledger@.rows[i] == ledger.rows@[i]@,
{
}

/// Rows and report lines are seen one by one, in their order.
pub proof fn lists_are_seen_in_order(rows: Seq<LedgerRow>, lines: Seq<SessionUsage>)
    ensures
        rows_view(rows).len() == rows.len(),
        forall|i: int| 0 <= i < rows.len() ==> #[trigger] rows_view(rows)[i] == rows[i]@,
        report_view(lines).len() == lines.len(),
        forall|i: int| 0 <= i < lines.len() ==> #[trigger] report_view(lines)[i] == lines[i]@,
{
}

/// A report line is seen whole.
pub proof fn a_report_line_is_seen_whole(line: SessionUsage)
    ensures
        line@.session_id == line.session_id@,
        line@.counter_version == line.counter_version,
        same(line@.account_key, line.account_key),
        same(line@.model, line.model),
        line@.counters == (UsageCounters {
            requests: line.requests,
            input_tokens: line.input_tokens,
            cached_input_tokens: line.cached_input_tokens,
            output_tokens: line.output_tokens,
            reasoning_tokens: line.reasoning_tokens,
            total_tokens: line.total_tokens,
        }),
{
}

/// Requests are seen whole.
pub proof fn requests_are_seen_whole(request: PoolRequest, release: ReleaseRequest)
    ensures
        request@.device_id == request.device_id@,
        same(request@.account_key, request.account_key),
        same(request@.reject, request.reject),
        same(request@.want_account, request.want_account),
        same(request@.cwd, request.cwd),
        request@.sessions.len() == request.sessions@.len(),
        forall|i: int|
            0 <= i < request.sessions@.len() ==> #[trigger] request@.sessions[i]
                == request.sessions@[i]@,
        release@.device_id == release.device_id@,
        release@.sessions.len() == release.sessions@.len(),
        forall|i: int|
            0 <= i < release.sessions@.len() ==> #[trigger] release@.sessions[i]
                == release.sessions@[i]@,
{
}

/// What the pool hands out is seen whole.
pub proof fn a_lease_is_seen_whole(data: LeaseData, lease: Lease)
    ensures
        data@.account_key == data.account_key@,
        same(data@.plan, data.plan),
        data@.access_token == data.auth_json.tokens.access_token@,
        same(data@.account_id, data.auth_json.tokens.account_id),
        lease@.account_key == lease.account_key@,
        lease@.auth == lease.auth@,
        lease@.decided_at == lease.decided_at,
{
}

/// A process's side of the pool is seen whole, and so is all that leasing can
/// change.
pub proof fn a_pool_is_seen_whole(pool: PoolAuth, ledger: Ledger, status: PoolStatus)
    ensures
        pool@.config == pool.config@,
        pool@.lease is Some <==> pool.lease is Some,
        pool.lease matches Some(lease) ==> pool@.lease == Some(lease@),
        state_of(pool, ledger, status).lease == pool@.lease,
        state_of(pool, ledger, status).ledger == ledger@,
        state_of(pool, ledger, status).status == status,
{
}

/// What the host found in a token is seen as it is.
pub proof fn a_token_check_is_seen_whole(tokens: TokenCheck)
    ensures
        tokens matches TokenCheck::Accepted { email } ==> tokens@ is Accepted && same(
            tokens@->email,
            email,
        ),
        tokens matches TokenCheck::Rejected(cause) ==> tokens@ == TokenCheckView::Rejected(cause@),
{
}

/// Every error is seen as it is.
pub proof fn an_error_is_seen_whole(error: PoolError)
    ensures
        error is NoAccountAvailable ==> error@ == PoolErrorView::NoAccountAvailable,
        error is MissingAccountId ==> error@ == PoolErrorView::MissingAccountId,
        error matches PoolError::Unreachable(cause) ==> error@ == PoolErrorView::Unreachable(
            cause@,
        ),
        error matches PoolError::LeaseFailed { status, body } ==> error@
            == (PoolErrorView::LeaseFailed { status: status@, body: body@ }),
        error matches PoolError::Undecodable(cause) ==> error@ == PoolErrorView::Undecodable(
            cause@,
        ),
        error matches PoolError::LeaseRejected(message) ==> error@ == PoolErrorView::LeaseRejected(
            message@,
        ),
        error matches PoolError::InvalidTokens(cause) ==> error@ == PoolErrorView::InvalidTokens(
            cause@,
        ),
        error matches PoolError::ReleaseFailed(status) ==> error@ == PoolErrorView::ReleaseFailed(
            status@,
        ),
{
}

/// Results are seen as they are.
pub proof fn results_are_seen_whole(
    outcome: Result<CodexAuth, PoolError>,
    reply: Result<Option<LeaseData>, PoolError>,
)
    ensures
        outcome matches Ok(auth) ==> outcome_view(outcome) == Ok::<AuthView, PoolErrorView>(auth@),
        outcome matches Err(error) ==> outcome_view(outcome) == Err::<AuthView, PoolErrorView>(
            error@,
        ),
        reply matches Err(error) ==> (reply_view(reply) matches Err(seen) && seen == error@),
        reply matches Ok(None) ==> (reply_view(reply) matches Ok(None)),
        reply matches Ok(Some(data)) ==> (reply_view(reply) matches Ok(Some(seen)) && seen
            == data@),
{
}

/// Credentials are seen whole, and keep their kind.
pub proof fn a_credential_is_seen_whole(auth: CodexAuth, tokens: ChatgptTokens)
    ensures
        auth matches CodexAuth::PersonalAccessToken(token) ==> auth@
            == AuthView::PersonalAccessToken(token@),
        auth matches CodexAuth::ChatgptTokens(held) ==> auth@ == AuthView::ChatgptTokens(held@),
        tokens@.access_token == tokens.access_token@,
        tokens@.account_id == tokens.account_id@,
        same(tokens@.plan, tokens.plan),
        same(tokens@.email, tokens.email),
{
}

/// A token's owner is seen whole.
pub proof fn an_owner_is_seen_whole(metadata: PersonalAccessTokenMetadata)
    ensures
        same(metadata@.email, metadata.email),
        metadata@.chatgpt_user_id == metadata.chatgpt_user_id@,
        metadata@.chatgpt_account_id == metadata.chatgpt_account_id@,
        metadata@.chatgpt_plan_type == metadata.chatgpt_plan_type@,
        metadata@.chatgpt_account_is_fedramp == metadata.chatgpt_account_is_fedramp,
{
}

/// Mail address and account of a credential are those it carries.
pub proof fn a_credential_names_its_account(auth: AuthView, token: PersonalAccessTokenView)
    ensures
        auth matches AuthView::ChatgptTokens(tokens) ==> auth.email() == tokens.email
            && auth.account_id() == tokens.account_id,
        AuthView::PersonalAccessToken(token).email() == token.metadata.email,
        AuthView::PersonalAccessToken(token).account_id() == token.metadata.chatgpt_account_id,
{
}

/// A configuration and what it comes from are seen whole.
pub proof fn a_configuration_is_seen_whole(
    config: Config,
    stored: StoredConfig,
    env: PoolEnvironment,
)
    ensures
        config@.base_url == config.base_url@,
        config@.key == config.key@,
        config@.device_id == config.device_id@,
        same(config@.want_account, config.want_account),
        config_view(Some(config)) == Some(config@),
        config_view(None) is None,
        stored@.base_url == stored.base_url@,
        stored@.key == stored.key@,
        same(stored@.account, stored.account),
        stored_view(Some(stored)) == Some(stored@),
        stored_view(None) is None,
        same(env@.url, env.url),
        same(env@.key, env.key),
        same(env@.account, env.account),
        same(env@.device_id, env.device_id),
        same(env@.hostname, env.hostname),
        same(env@.computername, env.computername),
        same(env@.workspace, env.workspace),
{
}

} // verus!
