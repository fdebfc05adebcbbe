//! What holds of leasing across operations.

use crate::auth::AuthView;
use crate::config::ConfigView;
use crate::error::CodexErr;
use crate::http::{success, HttpAnswer};
use crate::laws::ledger::{a_charged_call_stays_on_the_ledger, ahead_of, counters_before};
use crate::lease::{
    before_separator, lease_reply, lease_request, lease_url_of, opened, recent_auth, rejection,
    release_url_of, separator_at, served_at_once, settled, settled_outcome, user_of, validated,
    Envelope, LeaseAttempt, LeaseDataView, LeaseView, PoolErrorView, PoolState, PoolView,
    TokenCheckView, DECISION_COALESCE, REJECT_UNAUTHORIZED,
};
use crate::ledger::{
    charged, recorded, refused, report, report_line, row_position, LedgerView, RowView, TokenUsage,
    UsageKey, MAX_LEDGER_ROWS, MAX_REASON_CHARS,
};
use crate::personal_access_token::TOKEN_PREFIX;
use crate::retry::{account_scoped, reason_of};
use crate::status::PoolStatus;
use crate::text::{begins_with, trimmed};
use vstd::prelude::*;

verus! {

/// Whether the ledger and the lease name the same account.
pub open spec fn in_step(state: PoolState) -> bool {
    match state.lease {
        Some(lease) => {
            &&& state.ledger.held == Some(lease.account_key)
            &&& state.ledger.held_email == lease.auth.email()
        },
        None => state.ledger.held is None && state.ledger.held_email is None,
    }
}

/// Whatever the pool answers, the ledger and the lease go on naming the same
/// account: usage is charged to the very account whose credential is in use.
pub proof fn the_ledger_stays_in_step(
    state: PoolState,
    attempt: LeaseAttempt,
    reply: Result<Option<LeaseDataView>, PoolErrorView>,
    tokens: TokenCheckView,
    now: u128,
)
    requires
        in_step(state),
    ensures
        in_step(settled(state, attempt, reply, tokens, now)),
{
}

/// The calls around one request collapse: a decision stands for the calls that
/// follow within the window, and they get the credential it gave.
pub proof fn calls_around_one_request_collapse(
    pool: PoolView,
    lease: LeaseView,
    ledger: LedgerView,
    now: u128,
)
    requires
        pool.lease == Some(lease),
        ledger.refusal is None,
        now < lease.decided_at + DECISION_COALESCE,
    ensures
        served_at_once(pool, true, ledger, now),
        recent_auth(pool.lease, now) == Some(lease.auth),
{
}

/// The next request gets a decision of its own: nothing is served from a
/// decision that is older than the window, nor without one.
pub proof fn the_next_request_asks_anew(pool: PoolView, ledger: LedgerView, now: u128)
    requires
        pool.lease matches Some(lease) ==> now >= lease.decided_at + DECISION_COALESCE,
    ensures
        !served_at_once(pool, true, ledger, now),
{
}

/// While the pool has not been told of a refusal, it is asked every time, and
/// told.
pub proof fn a_refused_account_is_not_served(
    pool: PoolView,
    allow_stale: bool,
    ledger: LedgerView,
    reason: Seq<char>,
    now: u128,
)
    requires
        ledger.refusal == Some(reason),
    ensures
        !served_at_once(pool, allow_stale, ledger, now),
        lease_request(pool, rejection(allow_stale, ledger), ledger).reject == Some(reason),
{
}

/// A refusal that is reported is what the next request tells the pool.
pub proof fn a_reported_refusal_reaches_the_request(
    pool: PoolView,
    allow_stale: bool,
    ledger: LedgerView,
    reason: Seq<char>,
    now: u128,
)
    requires
        trimmed(reason).len() > 0,
    ensures
        ({
            let after = refused(ledger, reason);
            let request = lease_request(pool, rejection(allow_stale, after), after);
            &&& !served_at_once(pool, allow_stale, after, now)
            &&& request.reject is Some
            &&& request.reject == after.refusal
            &&& trimmed(reason).len() <= MAX_REASON_CHARS ==> request.reject == Some(
                trimmed(reason),
            )
        }),
{
}

/// After a 401 nothing is served at once, and the pool is told why it is asked:
/// of a refusal, or of the 401 itself.
pub proof fn a_401_is_always_reported(pool: PoolView, ledger: LedgerView, now: u128)
    ensures
        !served_at_once(pool, false, ledger, now),
        rejection(false, ledger) is Some,
        ledger.refusal is None ==> rejection(false, ledger) == Some(REJECT_UNAUTHORIZED@),
        ledger.refusal is None ==> rejection(true, ledger) is None,
{
}

/// Each request names the account in hand, the account that is wanted, where
/// the session works, and everything on the ledger.
pub proof fn each_request_tells_everything(
    pool: PoolView,
    lease: LeaseView,
    allow_stale: bool,
    ledger: LedgerView,
)
    requires
        pool.lease == Some(lease),
    ensures
        ({
            let request = lease_request(pool, rejection(allow_stale, ledger), ledger);
            &&& request.device_id == pool.config.device_id
            &&& request.account_key == Some(lease.account_key)
            &&& request.want_account == pool.config.want_account
            &&& request.cwd == ledger.cwd
            &&& request.sessions == report(ledger.rows)
        }),
{
}

/// A call that was charged travels with the next request, unless as many rows
/// as fit are ahead of its row.
pub proof fn a_charged_call_travels_with_the_next_request(
    pool: PoolView,
    ledger: LedgerView,
    account_key: Seq<char>,
    session_id: Seq<char>,
    model: Seq<char>,
    usage: TokenUsage,
    now: u64,
)
    requires
        ledger.held == Some(account_key),
        session_id.len() > 0,
        ({
            let key = UsageKey { session_id, account_key, model };
            ahead_of(
                charged(ledger.rows, key, usage, now),
                now,
                row_position(ledger.rows, key),
            ) < MAX_LEDGER_ROWS
        }),
    ensures
        ({
            let key = UsageKey { session_id, account_key, model };
            let after = recorded(ledger, session_id, model, usage, now);
            lease_request(pool, rejection(true, after), after).sessions.contains(
                report_line(
                    RowView {
                        key,
                        counters: counters_before(ledger.rows, key).after_turn(usage),
                        updated_at: now,
                    },
                ),
            )
        }),
{
    let key = UsageKey { session_id, account_key, model };
    let after = recorded(ledger, session_id, model, usage, now);
    let row = RowView {
        key,
        counters: counters_before(ledger.rows, key).after_turn(usage),
        updated_at: now,
    };
    a_charged_call_stays_on_the_ledger(ledger, account_key, session_id, model, usage, now);
    let at = choose|at: int| 0 <= at < after.rows.len() && after.rows[at] == row;
    assert(report(after.rows)[at] == report_line(row));
}

/// Leasing takes nothing off the ledger: a report that was sent is sent again.
pub proof fn leasing_keeps_the_usage(
    state: PoolState,
    attempt: LeaseAttempt,
    reply: Result<Option<LeaseDataView>, PoolErrorView>,
    tokens: TokenCheckView,
    now: u128,
)
    ensures
        settled(state, attempt, reply, tokens, now).ledger.rows == state.ledger.rows,
        settled(state, attempt, reply, tokens, now).ledger.cwd == state.ledger.cwd,
{
}

/// A refusal is settled when the pool was reached by a request that told of it,
/// and only then.
pub proof fn a_refusal_survives_until_it_is_delivered(
    state: PoolState,
    attempt: LeaseAttempt,
    reply: Result<Option<LeaseDataView>, PoolErrorView>,
    tokens: TokenCheckView,
    now: u128,
)
    ensures
        settled(state, attempt, reply, tokens, now).ledger.refusal == (if reply is Ok
            && attempt.refused {
            None
        } else {
            state.ledger.refusal
        }),
{
}

/// A pool that hands out an account ends a shortage, and its account is in hand.
pub proof fn a_served_lease_is_in_hand(
    state: PoolState,
    attempt: LeaseAttempt,
    data: LeaseDataView,
    tokens: TokenCheckView,
    auth: AuthView,
    now: u128,
)
    requires
        validated(data, tokens) == Ok::<AuthView, PoolErrorView>(auth),
    ensures
        ({
            let after = settled(state, attempt, Ok(Some(data)), tokens, now);
            &&& after.lease == Some(
                LeaseView { account_key: data.account_key, auth, decided_at: now },
            )
            &&& after.ledger.held == Some(data.account_key)
            &&& !after.status.exhausted
        }),
        settled_outcome(state, attempt, Ok(Some(data)), tokens) == Ok::<AuthView, PoolErrorView>(
            auth,
        ),
{
}

/// A pool that is out of accounts means it: the account in hand is let go, the
/// shortage is noted, and no credential is given.
pub proof fn an_empty_pool_lets_go_of_the_lease(
    state: PoolState,
    attempt: LeaseAttempt,
    tokens: TokenCheckView,
    now: u128,
)
    ensures
        ({
            let after = settled(state, attempt, Ok(None), tokens, now);
            &&& after.lease is None
            &&& after.ledger.held is None
            &&& after.ledger.held_email is None
            &&& after.status == state.status.when_exhausted()
        }),
        settled_outcome(state, attempt, Ok(None), tokens) == Err::<AuthView, PoolErrorView>(
            PoolErrorView::NoAccountAvailable,
        ),
{
}

/// A pool that cannot be reached changes nothing while there is an account in
/// hand: the account stays in hand even where its credential is not given out,
/// because the host goes on using it.
pub proof fn an_unreachable_pool_keeps_the_lease(
    state: PoolState,
    lease: LeaseView,
    attempt: LeaseAttempt,
    error: PoolErrorView,
    tokens: TokenCheckView,
    now: u128,
)
    requires
        state.lease == Some(lease),
    ensures
        settled(state, attempt, Err(error), tokens, now) == state,
        settled_outcome(state, attempt, Err(error), tokens) == (if attempt.allow_stale
            && !attempt.refused {
            Ok::<AuthView, PoolErrorView>(lease.auth)
        } else {
            Err::<AuthView, PoolErrorView>(error)
        }),
{
}

/// A lease request that fails does not change what an error means: while the
/// account stays in hand, what is about it is answered with another account.
pub proof fn a_failed_lease_does_not_hide_a_refusal(
    state: PoolState,
    lease: LeaseView,
    attempt: LeaseAttempt,
    error: PoolErrorView,
    tokens: TokenCheckView,
    now: u128,
    err: CodexErr,
)
    requires
        state.lease == Some(lease),
        in_step(state),
        lease.auth.email() is Some,
        reason_of(err) is Some,
    ensures
        account_scoped(err, settled(state, attempt, Err(error), tokens, now).ledger),
{
}

/// Without an account in hand an unreachable pool gives no credential, and none
/// is in hand afterwards: the host falls back to its own.
pub proof fn an_unreachable_pool_without_a_lease(
    state: PoolState,
    attempt: LeaseAttempt,
    error: PoolErrorView,
    tokens: TokenCheckView,
    now: u128,
)
    requires
        state.lease is None,
    ensures
        settled_outcome(state, attempt, Err(error), tokens) == Err::<AuthView, PoolErrorView>(
            error,
        ),
        settled(state, attempt, Err(error), tokens, now).lease is None,
        in_step(settled(state, attempt, Err(error), tokens, now)),
        settled(state, attempt, Err(error), tokens, now).status == state.status,
{
}

/// A credential that was rejected is never given out again without a new
/// decision of the pool.
pub proof fn a_rejected_credential_is_not_reused(
    state: PoolState,
    attempt: LeaseAttempt,
    reply: Result<Option<LeaseDataView>, PoolErrorView>,
    tokens: TokenCheckView,
)
    requires
        !attempt.allow_stale || attempt.refused,
    ensures
        settled_outcome(state, attempt, reply, tokens) is Ok ==> (reply matches Ok(Some(data))
            && settled_outcome(state, attempt, reply, tokens) == validated(data, tokens)),
{
}

/// The shortage mark follows the pool's word alone: it is set by an empty pool,
/// taken off by a lease, and left alone by anything else.
pub proof fn only_the_pool_speaks_of_shortage(
    state: PoolState,
    attempt: LeaseAttempt,
    reply: Result<Option<LeaseDataView>, PoolErrorView>,
    tokens: TokenCheckView,
    now: u128,
)
    ensures
        settled(state, attempt, reply, tokens, now).status == (match reply {
            Ok(None) => state.status.when_exhausted(),
            Ok(Some(data)) if validated(data, tokens) is Ok => state.status.when_serving(),
            _ => state.status,
        }),
{
}

/// A lease serves the calls around its request: until the window is over they
/// get its credential, provided that the request told of any refusal.
pub proof fn a_lease_serves_the_calls_around_it(
    state: PoolState,
    config: ConfigView,
    attempt: LeaseAttempt,
    data: LeaseDataView,
    tokens: TokenCheckView,
    auth: AuthView,
    decided_at: u128,
    now: u128,
)
    requires
        validated(data, tokens) == Ok::<AuthView, PoolErrorView>(auth),
        attempt.refused == state.ledger.refusal is Some,
        now < decided_at + DECISION_COALESCE,
    ensures
        ({
            let after = settled(state, attempt, Ok(Some(data)), tokens, decided_at);
            &&& served_at_once(PoolView { config, lease: after.lease }, true, after.ledger, now)
            &&& recent_auth(after.lease, now) == Some(auth)
        }),
{
}

/// A pool that was out of accounts recovers: once it hands one out, that account
/// is in hand and the shortage is over.
pub proof fn an_empty_pool_recovers(
    state: PoolState,
    first: LeaseAttempt,
    second: LeaseAttempt,
    data: LeaseDataView,
    tokens: TokenCheckView,
    auth: AuthView,
    before: u128,
    now: u128,
)
    requires
        validated(data, tokens) == Ok::<AuthView, PoolErrorView>(auth),
    ensures
        ({
            let empty = settled(state, first, Ok(None), tokens, before);
            let after = settled(empty, second, Ok(Some(data)), tokens, now);
            &&& in_step(empty)
            &&& in_step(after)
            &&& after.lease == Some(
                LeaseView { account_key: data.account_key, auth, decided_at: now },
            )
            &&& after.status == PoolStatus::calm()
        }),
{
}

/// A pool that is out of accounts when the process starts leaves no shortage
/// behind: the errors that follow are taken for what they are.
pub proof fn a_failed_startup_leaves_no_shortage(
    state: PoolState,
    attempt: LeaseAttempt,
    tokens: TokenCheckView,
    now: u128,
)
    ensures
        settled(state, attempt, Ok(None), tokens, now).status.when_serving() == PoolStatus::calm(),
{
}

/// Releasing goes to an address of its own, whatever the pool's address is.
pub proof fn releasing_is_not_leasing(config: ConfigView)
    ensures
        lease_url_of(config) != release_url_of(config),
{
    reveal_strlit("/lease");
    reveal_strlit("/release");
    assert(lease_url_of(config).len() != release_url_of(config).len());
}

/// A personal access token is taken as it is: what the host finds in the token
/// does not count, and neither address nor flags are made up.
pub proof fn an_opaque_token_needs_no_check(
    data: LeaseDataView,
    one: TokenCheckView,
    other: TokenCheckView,
)
    requires
        begins_with(data.access_token, TOKEN_PREFIX@),
    ensures
        validated(data, one) == validated(data, other),
        validated(data, one) matches Ok(auth) ==> auth is PersonalAccessToken && auth.email()
            is None,
{
}

/// A credential belongs to the account that the pool named.
pub proof fn a_credential_belongs_to_its_account(data: LeaseDataView, tokens: TokenCheckView)
    ensures
        validated(data, tokens) matches Ok(auth) ==> data.account_id == Some(auth.account_id()),
        data.account_id is None ==> validated(data, tokens) == Err::<AuthView, PoolErrorView>(
            PoolErrorView::MissingAccountId,
        ),
{
}

/// The user of an account key is what stands before its first separator,
/// whatever the account is; a key without a separator names no user.
pub proof fn the_user_stands_before_the_separator(user: Seq<char>, account: Seq<char>)
    requires
        forall|i: int| !#[trigger] separator_at(user, i),
    ensures
        user.len() == 0 || user.last() != ':' ==> user_of(user + seq![':', ':'] + account) == user,
        user_of(user).len() == 0,
{
    if user.len() == 0 || user.last() != ':' {
        lemma_skip_user(user, account, 0);
    }
    lemma_no_separator(user, 0);
}

proof fn lemma_skip_user(user: Seq<char>, account: Seq<char>, from: int)
    requires
        forall|i: int| !#[trigger] separator_at(user, i),
        user.len() == 0 || user.last() != ':',
        0 <= from <= user.len(),
    ensures
        before_separator(user + seq![':', ':'] + account, from) == user,
    decreases user.len() - from,
{
    let key = user + seq![':', ':'] + account;
    assert(key.take(user.len() as int) =~= user);
    if from < user.len() {
        assert(!separator_at(user, from));
        assert(key[from] == user[from]);
        if from + 1 < user.len() {
            assert(key[from + 1] == user[from + 1]);
        }
        lemma_skip_user(user, account, from + 1);
    }
}

proof fn lemma_no_separator(user: Seq<char>, from: int)
    requires
        forall|i: int| !#[trigger] separator_at(user, i),
        0 <= from <= user.len(),
    ensures
        before_separator(user, from).len() == 0,
    decreases user.len() - from,
{
    if from < user.len() {
        assert(!separator_at(user, from));
        lemma_no_separator(user, from + 1);
    }
}

/// A status is a success where its hundreds are two.
pub proof fn a_success_is_a_two_hundred(status: u16)
    ensures
        success(status) <==> status / 100 == 2,
{
}

/// The first separator of an account key decides: the user is all that stands
/// before it. A key without one names no user.
pub proof fn the_first_separator_decides(key: Seq<char>, at: int)
    ensures
        0 <= at && at + 1 < key.len() && key[at] == ':' && key[at + 1] == ':' && (forall|i: int|
            0 <= i < at ==> !(#[trigger] key[i] == ':' && key[i + 1] == ':')) ==> user_of(key)
            == key.take(at),
        (forall|i: int|
            0 <= i < key.len() - 1 ==> !(#[trigger] key[i] == ':' && key[i + 1] == ':'))
            ==> user_of(key).len() == 0,
{
    if 0 <= at && at + 1 < key.len() && key[at] == ':' && key[at + 1] == ':' && (forall|i: int|
        0 <= i < at ==> !(#[trigger] key[i] == ':' && key[i + 1] == ':')) {
        lemma_reach_separator(key, at, 0);
    }
    if forall|i: int| 0 <= i < key.len() - 1 ==> !(#[trigger] key[i] == ':' && key[i + 1] == ':') {
        assert forall|i: int| !#[trigger] separator_at(key, i) by {
            if separator_at(key, i) {
                assert(key[i] == ':' && key[i + 1] == ':');
            }
        }
        lemma_no_separator(key, 0);
    }
}

proof fn lemma_reach_separator(key: Seq<char>, at: int, from: int)
    requires
        0 <= from <= at,
        at + 1 < key.len(),
        key[at] == ':',
        key[at + 1] == ':',
        forall|i: int| 0 <= i < at ==> !(#[trigger] key[i] == ':' && key[i + 1] == ':'),
    ensures
        before_separator(key, from) == key.take(at),
    decreases at - from,
{
    if from < at {
        assert(!(key[from] == ':' && key[from + 1] == ':'));
        lemma_reach_separator(key, at, from + 1);
    }
}

/// A credential carries the very token that the pool handed out, with the plan
/// and the account that the pool named and the mail address that the host found
/// in the token. A personal access token names the user of the account key.
pub proof fn a_credential_carries_what_was_handed_out(data: LeaseDataView, tokens: TokenCheckView)
    ensures
        validated(data, tokens) matches Ok(AuthView::ChatgptTokens(held)) ==> {
            &&& held.access_token == data.access_token
            &&& data.account_id == Some(held.account_id)
            &&& held.plan == data.plan
            &&& tokens == (TokenCheckView::Accepted { email: held.email })
        },
        validated(data, tokens) matches Ok(AuthView::PersonalAccessToken(token)) ==> {
            &&& token.access_token == data.access_token
            &&& data.account_id == Some(token.metadata.chatgpt_account_id)
            &&& token.metadata.chatgpt_user_id == user_of(data.account_key)
            &&& token.metadata.email is None
            &&& !token.metadata.chatgpt_account_is_fedramp
            &&& data.plan is Some ==> token.metadata.chatgpt_plan_type == data.plan->0
            &&& data.plan is None ==> token.metadata.chatgpt_plan_type == "unknown"@
        },
{
}

/// Whether a token begins as personal access tokens do.
pub open spec fn is_opaque(token: Seq<char>) -> bool {
    token.len() >= 3 && token[0] == 'a' && token[1] == 't' && token[2] == '-'
}

/// What the pool hands out becomes a credential of the kind that its token has,
/// and an error for the one reason that stands against it.
pub proof fn each_lease_becomes_one_thing(data: LeaseDataView, tokens: TokenCheckView)
    ensures
        data.account_id is None ==> (validated(data, tokens) matches Err(error) && error
            is MissingAccountId),
        data.account_id is Some && is_opaque(data.access_token) ==> (validated(data, tokens)
            matches Ok(auth) && auth is PersonalAccessToken),
        data.account_id is Some && !is_opaque(data.access_token) && tokens is Accepted ==> (
        validated(data, tokens) matches Ok(auth) && auth is ChatgptTokens),
        data.account_id is Some && !is_opaque(data.access_token) ==> (tokens
            matches TokenCheckView::Rejected(cause) ==> (validated(data, tokens) matches Err(error)
            && error == PoolErrorView::InvalidTokens(cause))),
{
    reveal_strlit("at-");
    let head = data.access_token.take(3);
    if is_opaque(data.access_token) {
        assert(head =~= "at-"@);
    } else if begins_with(data.access_token, TOKEN_PREFIX@) {
        assert(head[0] == data.access_token[0]);
        assert(head[1] == data.access_token[1]);
        assert(head[2] == data.access_token[2]);
    }
}

/// Whether a decision stands depends on its age alone: it stands for one second.
pub proof fn a_decision_stands_for_a_second(
    pool: PoolView,
    allow_stale: bool,
    ledger: LedgerView,
    now: u128,
)
    ensures
        served_at_once(pool, allow_stale, ledger, now) <==> {
            &&& allow_stale
            &&& ledger.refusal is None
            &&& pool.lease matches Some(lease) && now < lease.decided_at + 1_000_000_000
        },
        recent_auth(pool.lease, now) == (match pool.lease {
            Some(lease) if now < lease.decided_at + 1_000_000_000 => Some(lease.auth),
            _ => None,
        }),
{
}

/// What the pool is told against the account in hand: the refusal that is noted,
/// else the 401 that led to the request, else nothing.
pub proof fn the_pool_is_told_why(allow_stale: bool, ledger: LedgerView)
    ensures
        ledger.refusal is Some ==> rejection(allow_stale, ledger) == ledger.refusal,
        ledger.refusal is None && !allow_stale ==> rejection(allow_stale, ledger) == Some(
            "unauthorized"@,
        ),
        ledger.refusal is None && allow_stale ==> rejection(allow_stale, ledger) is None,
{
}

/// A request says what is so, field by field.
pub proof fn a_request_says_what_is_so(
    pool: PoolView,
    reject: Option<Seq<char>>,
    ledger: LedgerView,
)
    ensures
        ({
            let request = lease_request(pool, reject, ledger);
            &&& request.device_id == pool.config.device_id
            &&& pool.lease is None ==> request.account_key is None
            &&& pool.lease matches Some(lease) ==> request.account_key == Some(lease.account_key)
            &&& request.reject == reject
            &&& request.want_account == pool.config.want_account
            &&& request.cwd == ledger.cwd
            &&& request.sessions.len() == ledger.rows.len()
            &&& forall|i: int|
                0 <= i < ledger.rows.len() ==> #[trigger] request.sessions[i] == report_line(
                    ledger.rows[i],
                )
        }),
{
}

/// Lease and release requests go below the configured address, each to its own
/// path.
pub proof fn requests_go_below_the_configured_address(config: ConfigView)
    ensures
        lease_url_of(config) == config.base_url + "/x8Rk3Nq6Vd2/lease"@,
        release_url_of(config) == config.base_url + "/x8Rk3Nq6Vd2/release"@,
{
    reveal_strlit("/x8Rk3Nq6Vd2");
    reveal_strlit("/lease");
    reveal_strlit("/release");
    reveal_strlit("/x8Rk3Nq6Vd2/lease");
    reveal_strlit("/x8Rk3Nq6Vd2/release");
    assert("/x8Rk3Nq6Vd2"@ + "/lease"@ =~= "/x8Rk3Nq6Vd2/lease"@);
    assert("/x8Rk3Nq6Vd2"@ + "/release"@ =~= "/x8Rk3Nq6Vd2/release"@);
    assert(lease_url_of(config) =~= config.base_url + ("/x8Rk3Nq6Vd2"@ + "/lease"@));
    assert(release_url_of(config) =~= config.base_url + ("/x8Rk3Nq6Vd2"@ + "/release"@));
}

/// Whatever the pool answers, every part of the state is settled: the account in
/// hand and its mail address, the refusal and the shortage; usage and directory
/// are never touched.
pub proof fn every_answer_settles_the_state(
    state: PoolState,
    attempt: LeaseAttempt,
    reply: Result<Option<LeaseDataView>, PoolErrorView>,
    tokens: TokenCheckView,
    now: u128,
)
    ensures
        ({
            let after = settled(state, attempt, reply, tokens, now);
            &&& after.ledger.rows == state.ledger.rows
            &&& after.ledger.cwd == state.ledger.cwd
            &&& reply is Ok && attempt.refused ==> after.ledger.refusal is None
            &&& !(reply is Ok && attempt.refused) ==> after.ledger.refusal == state.ledger.refusal
            &&& reply is Err ==> after.status == state.status && after.lease == state.lease
            &&& reply is Err && state.lease is Some ==> after.ledger == state.ledger
            &&& reply is Err && state.lease is None ==> after.ledger.held is None
                && after.ledger.held_email is None
            &&& reply matches Ok(None) ==> {
                &&& after.lease is None
                &&& after.ledger.held is None
                &&& after.ledger.held_email is None
                &&& after.status.exhausted
                &&& after.status.announced == state.status.announced
            }
            &&& reply matches Ok(Some(data)) ==> {
                &&& validated(data, tokens) is Err ==> after.lease is None && after.ledger.held
                    is None && after.ledger.held_email is None && after.status == state.status
                &&& validated(data, tokens) matches Ok(auth) ==> {
                    &&& after.lease == Some(
                        LeaseView { account_key: data.account_key, auth, decided_at: now },
                    )
                    &&& after.ledger.held == Some(data.account_key)
                    &&& after.ledger.held_email == auth.email()
                    &&& !after.status.exhausted
                    &&& state.status.exhausted ==> !after.status.announced
                    &&& !state.status.exhausted ==> after.status == state.status
                }
            }
        }),
{
}

/// Whatever the pool answers, the outcome is the lease's credential, the error,
/// or the credential in hand where it may bridge.
pub proof fn every_answer_has_its_outcome(
    state: PoolState,
    attempt: LeaseAttempt,
    reply: Result<Option<LeaseDataView>, PoolErrorView>,
    tokens: TokenCheckView,
)
    ensures
        ({
            let outcome = settled_outcome(state, attempt, reply, tokens);
            &&& reply matches Ok(Some(data)) ==> outcome == validated(data, tokens)
            &&& reply matches Ok(None) ==> (outcome matches Err(error) && error
                is NoAccountAvailable)
            &&& reply matches Err(cause) ==> {
                &&& state.lease is Some && attempt.allow_stale && !attempt.refused ==> (outcome
                    matches Ok(auth) && auth == state.lease->0.auth)
                &&& !(state.lease is Some && attempt.allow_stale && !attempt.refused) ==> (outcome
                    matches Err(error) && error == cause)
            }
        }),
{
}

/// An answer is read by how far it came: not through, an HTTP error, not
/// understood, turned down, or what the envelope holds.
pub proof fn an_answer_is_read_by_how_far_it_came(answer: Result<HttpAnswer<Envelope>, String>)
    ensures
        answer matches Err(cause) ==> (lease_reply(answer) matches Err(error) && error
            == PoolErrorView::Unreachable(cause@)),
        answer matches Ok(got) ==> {
            &&& got.status.code / 100 != 2 ==> (lease_reply(answer) matches Err(error) && error
                == (PoolErrorView::LeaseFailed { status: got.status.line@, body: got.text@ }))
            &&& got.status.code / 100 == 2 ==> {
                &&& got.content matches Err(cause) ==> (lease_reply(answer) matches Err(error)
                    && error == PoolErrorView::Undecodable(cause@))
                &&& got.content matches Ok(envelope) ==> {
                    &&& envelope.code != 0 ==> (lease_reply(answer) matches Err(error) && (error
                        matches PoolErrorView::LeaseRejected(message) && (if envelope.message
                        is Some {
                        message == envelope.message->0@
                    } else {
                        message.len() == 0
                    })))
                    &&& envelope.code == 0 && envelope.data is None ==> (lease_reply(answer)
                        matches Ok(None))
                    &&& envelope.code == 0 && envelope.data is Some ==> (lease_reply(answer)
                        matches Ok(Some(data)) && data == envelope.data->0@)
                }
            }
        },
{
}

/// What an envelope says does not depend on how it came.
pub proof fn an_envelope_is_read_alike(envelope: Envelope)
    ensures
        envelope.code == 0 && envelope.data is Some ==> (opened(envelope) matches Ok(Some(data))
            && data == envelope.data->0@),
        envelope.code == 0 && envelope.data is None ==> (opened(envelope) matches Ok(None)),
        envelope.code != 0 ==> (opened(envelope) matches Err(error) && (error
            matches PoolErrorView::LeaseRejected(message) && (if envelope.message is Some {
            message == envelope.message->0@
        } else {
            message.len() == 0
        }))),
{
}

/// The text of an error says what failed, and then with what.
pub proof fn an_error_says_what_failed(one: Seq<char>, other: Seq<char>)
    ensures
        PoolErrorView::NoAccountAvailable.text() == "no account available in the pool"@,
        PoolErrorView::MissingAccountId.text()
            == "pool returned credentials without a chatgpt account id"@,
        PoolErrorView::Unreachable(one).text() == one,
        (PoolErrorView::LeaseFailed { status: one, body: other }).text() == "pool lease failed: "@
            + one + ": "@ + other,
        PoolErrorView::Undecodable(one).text() == one,
        PoolErrorView::LeaseRejected(one).text() == "pool lease rejected: "@ + one,
        PoolErrorView::InvalidTokens(one).text() == one,
        PoolErrorView::ReleaseFailed(one).text() == "pool release failed: "@ + one,
{
}

} // verus!
