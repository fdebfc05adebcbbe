//! Leasing an account from the pool.
//!
//! Every request asks the pool which account to use; there is no cache of
//! leases. The pool keeps a usable account where it is, so the account in hand
//! travels with every request. What is kept here serves two ends: to tell the
//! pool which account is in hand, and to bridge a moment in which the pool
//! cannot be reached.

use crate::auth::{AuthView, ChatgptTokens, ChatgptTokensView, CodexAuth};
use crate::config::{Config, ConfigView};
use crate::http::{is_success, success, HttpAnswer, HttpStatus};
use crate::ledger::{clear_refusal, pending_usage, refusal_reason, report, report_view, session_cwd,
    set_held_account, Ledger, LedgerView, SessionUsage, SessionUsageView};
use crate::personal_access_token::{external_token, is_personal_access_token,
    PersonalAccessTokenAuth, TOKEN_PREFIX};
use crate::status::{mark_pool_exhausted, mark_pool_serving, PoolStatus};
use crate::text::{as_opt_str, begins_with, chars_of, clone_opt, opt_text};
use vstd::prelude::*;

verus! {

/// The prefix of every path of the pool.
pub const PATH_PREFIX: &'static str = "/x8Rk3Nq6Vd2";

/// The header that carries the key.
pub const TOKEN_HEADER: &'static str = "X-Codex-Pool-Token";

/// How long one call to the pool may take, in nanoseconds.
pub const POOL_TIMEOUT: u64 = 3_000_000_000;

/// How long a decision of the pool stands for the calls around one request, in
/// nanoseconds.
///
/// Credentials are asked for many times around one model call. Model calls are
/// seconds apart, so each still gets a decision of its own.
pub const DECISION_COALESCE: u128 = 1_000_000_000;

/// How often the pool is called while nothing else happens, in nanoseconds.
pub const IDLE_TICK: u64 = 20_000_000_000;

/// The reason reported for a credential that was answered with 401.
pub const REJECT_UNAUTHORIZED: &'static str = "unauthorized";

/// The reason reported for an account whose quota is used up.
///
/// The pool decides by this very text whether to set the account aside.
pub const REJECT_USAGE_LIMIT: &'static str = "usage_limit";

/// The reason reported for an account that was asked to slow down.
///
/// It is not that of a used-up quota: the account is congested for a moment, and
/// setting it aside for hours would drain the pool.
pub const REJECT_RETRY_LIMIT: &'static str = "retry_limit_429";

/// The reason reported for an account whose plan or billing has no quota left.
pub const REJECT_QUOTA_EXCEEDED: &'static str = "quota_exceeded";

/// The reason reported for an account whose plan does not hold the usage.
pub const REJECT_USAGE_NOT_INCLUDED: &'static str = "usage_not_included";

/// Why there is no credential from the pool.
#[derive(Debug, PartialEq, Eq)]
pub enum PoolError {
    /// The pool has no account to hand out.
    NoAccountAvailable,
    /// The pool handed out credentials without an account id.
    MissingAccountId,
    /// The call did not get through, for the given cause.
    Unreachable(String),
    /// The pool answered a lease request with an HTTP error.
    LeaseFailed { status: String, body: String },
    /// The pool's answer was not understood, for the given cause.
    Undecodable(String),
    /// The pool turned a lease request down.
    LeaseRejected(String),
    /// The tokens that were handed out are not usable, for the given cause.
    InvalidTokens(String),
    /// The pool answered a release request with an HTTP error.
    ReleaseFailed(String),
}

/// Why there is no credential from the pool, as a mathematical value.
pub enum PoolErrorView {
    NoAccountAvailable,
    MissingAccountId,
    Unreachable(Seq<char>),
    LeaseFailed { status: Seq<char>, body: Seq<char> },
    Undecodable(Seq<char>),
    LeaseRejected(Seq<char>),
    InvalidTokens(Seq<char>),
    ReleaseFailed(Seq<char>),
}

impl View for PoolError {
    type V = PoolErrorView;

    open spec fn view(&self) -> PoolErrorView {
        match self {
            PoolError::NoAccountAvailable => PoolErrorView::NoAccountAvailable,
            PoolError::MissingAccountId => PoolErrorView::MissingAccountId,
            PoolError::Unreachable(cause) => PoolErrorView::Unreachable(cause@),
            PoolError::LeaseFailed { status, body } => PoolErrorView::LeaseFailed {
                status: status@,
                body: body@,
            },
            PoolError::Undecodable(cause) => PoolErrorView::Undecodable(cause@),
            PoolError::LeaseRejected(message) => PoolErrorView::LeaseRejected(message@),
            PoolError::InvalidTokens(cause) => PoolErrorView::InvalidTokens(cause@),
            PoolError::ReleaseFailed(status) => PoolErrorView::ReleaseFailed(status@),
        }
    }
}

impl PoolErrorView {
    /// The text of the error.
    pub open spec fn text(self) -> Seq<char> {
        match self {
            PoolErrorView::NoAccountAvailable => "no account available in the pool"@,
            PoolErrorView::MissingAccountId => {
                "pool returned credentials without a chatgpt account id"@
            },
            PoolErrorView::Unreachable(cause) => cause,
            PoolErrorView::LeaseFailed { status, body } => "pool lease failed: "@ + status + ": "@
                + body,
            PoolErrorView::Undecodable(cause) => cause,
            PoolErrorView::LeaseRejected(message) => "pool lease rejected: "@ + message,
            PoolErrorView::InvalidTokens(cause) => cause,
            PoolErrorView::ReleaseFailed(status) => "pool release failed: "@ + status,
        }
    }
}

impl PoolError {
    /// The text of the error.
    pub fn message(&self) -> (r: String)
        ensures
            r@ == self@.text(),
    {
        match self {
            PoolError::NoAccountAvailable => "no account available in the pool".to_owned(),
            PoolError::MissingAccountId => {
                "pool returned credentials without a chatgpt account id".to_owned()
            },
            PoolError::Unreachable(cause) => cause.clone(),
            PoolError::LeaseFailed { status, body } => "pool lease failed: ".to_owned().concat(
                status.as_str(),
            ).concat(": ").concat(body.as_str()),
            PoolError::Undecodable(cause) => cause.clone(),
            PoolError::LeaseRejected(message) => "pool lease rejected: ".to_owned().concat(
                message.as_str(),
            ),
            PoolError::InvalidTokens(cause) => cause.clone(),
            PoolError::ReleaseFailed(status) => "pool release failed: ".to_owned().concat(
                status.as_str(),
            ),
        }
    }
}

/// What the pool is told when it is asked for an account.
#[derive(Debug, PartialEq)]
pub struct PoolRequest {
    pub device_id: String,
    /// The account in hand.
    pub account_key: Option<String>,
    /// Why the account in hand is no longer wanted.
    pub reject: Option<String>,
    /// The account that is asked for.
    pub want_account: Option<String>,
    /// The directory in which the session works.
    pub cwd: Option<String>,
    pub sessions: Vec<SessionUsage>,
}

/// A lease request as a mathematical value.
#[verifier::ext_equal]
pub struct PoolRequestView {
    pub device_id: Seq<char>,
    pub account_key: Option<Seq<char>>,
    pub reject: Option<Seq<char>>,
    pub want_account: Option<Seq<char>>,
    pub cwd: Option<Seq<char>>,
    pub sessions: Seq<SessionUsageView>,
}

impl View for PoolRequest {
    type V = PoolRequestView;

    open spec fn view(&self) -> PoolRequestView {
        PoolRequestView {
            device_id: self.device_id@,
            account_key: opt_text(self.account_key),
            reject: opt_text(self.reject),
            want_account: opt_text(self.want_account),
            cwd: opt_text(self.cwd),
            sessions: report_view(self.sessions@),
        }
    }
}

/// What the pool is told when the account is given back. It shares nothing
/// with a lease request, so that the two can change on their own.
#[derive(Debug, PartialEq)]
pub struct ReleaseRequest {
    pub device_id: String,
    pub sessions: Vec<SessionUsage>,
}

/// A release request as a mathematical value.
#[verifier::ext_equal]
pub struct ReleaseRequestView {
    pub device_id: Seq<char>,
    pub sessions: Seq<SessionUsageView>,
}

impl View for ReleaseRequest {
    type V = ReleaseRequestView;

    open spec fn view(&self) -> ReleaseRequestView {
        ReleaseRequestView { device_id: self.device_id@, sessions: report_view(self.sessions@) }
    }
}

/// A lease request together with where it goes.
pub struct LeaseCall {
    pub url: String,
    pub key: String,
    pub request: PoolRequest,
}

/// A release request together with where it goes.
pub struct ReleaseCall {
    pub url: String,
    pub key: String,
    pub request: ReleaseRequest,
}

/// The tokens of a lease.
pub struct Tokens {
    pub access_token: String,
    pub account_id: Option<String>,
}

/// The credentials of a lease.
pub struct AuthJson {
    pub tokens: Tokens,
}

/// What the pool hands out.
pub struct LeaseData {
    pub account_key: String,
    pub plan: Option<String>,
    pub auth_json: AuthJson,
}

/// What the pool hands out, as mathematical values.
pub struct LeaseDataView {
    pub account_key: Seq<char>,
    pub plan: Option<Seq<char>>,
    pub access_token: Seq<char>,
    pub account_id: Option<Seq<char>>,
}

impl View for LeaseData {
    type V = LeaseDataView;

    open spec fn view(&self) -> LeaseDataView {
        LeaseDataView {
            account_key: self.account_key@,
            plan: opt_text(self.plan),
            access_token: self.auth_json.tokens.access_token@,
            account_id: opt_text(self.auth_json.tokens.account_id),
        }
    }
}

/// The pool's answer to a lease request. No data means that the pool has no
/// account to hand out.
pub struct Envelope {
    pub code: i64,
    pub data: Option<LeaseData>,
    pub message: Option<String>,
}

/// What the host found in the access token of a signed-in account.
pub enum TokenCheck {
    /// The token is usable, and claims this mail address.
    Accepted { email: Option<String> },
    /// The token is not usable, for the given cause.
    Rejected(String),
}

/// What the host found in an access token, as a mathematical value.
pub enum TokenCheckView {
    Accepted { email: Option<Seq<char>> },
    Rejected(Seq<char>),
}

impl View for TokenCheck {
    type V = TokenCheckView;

    open spec fn view(&self) -> TokenCheckView {
        match self {
            TokenCheck::Accepted { email } => TokenCheckView::Accepted { email: opt_text(*email) },
            TokenCheck::Rejected(cause) => TokenCheckView::Rejected(cause@),
        }
    }
}

/// Whether `s` holds the separator of an account key at `i`.
pub open spec fn separator_at(s: Seq<char>, i: int) -> bool {
    0 <= i && i + 1 < s.len() && s[i] == ':' && s[i + 1] == ':'
}

/// The part of `s` before its first separator at or behind `from`; empty if
/// there is none.
pub open spec fn before_separator(s: Seq<char>, from: int) -> Seq<char>
    decreases s.len() - from,
{
    if from + 1 >= s.len() {
        Seq::empty()
    } else if separator_at(s, from) {
        s.take(from)
    } else {
        before_separator(s, from + 1)
    }
}

/// The user of an account key `user::account`; empty for a key of another form.
pub open spec fn user_of(account_key: Seq<char>) -> Seq<char> {
    before_separator(account_key, 0)
}

/// The credential that a lease gives. A personal access token needs no look
/// into the token; any other token is what the host found it to be.
pub open spec fn validated(data: LeaseDataView, tokens: TokenCheckView) -> Result<
    AuthView,
    PoolErrorView,
> {
    match data.account_id {
        None => Err(PoolErrorView::MissingAccountId),
        Some(account_id) => if begins_with(data.access_token, TOKEN_PREFIX@) {
            Ok(
                AuthView::PersonalAccessToken(
                    external_token(
                        data.access_token,
                        user_of(data.account_key),
                        account_id,
                        data.plan,
                    ),
                ),
            )
        } else {
            match tokens {
                TokenCheckView::Accepted { email } => Ok(
                    AuthView::ChatgptTokens(
                        ChatgptTokensView {
                            access_token: data.access_token,
                            account_id,
                            plan: data.plan,
                            email,
                        },
                    ),
                ),
                TokenCheckView::Rejected(cause) => Err(PoolErrorView::InvalidTokens(cause)),
            }
        },
    }
}

/// A result of leasing as a mathematical value.
pub open spec fn outcome_view(r: Result<CodexAuth, PoolError>) -> Result<AuthView, PoolErrorView> {
    match r {
        Ok(auth) => Ok(auth@),
        Err(error) => Err(error@),
    }
}

/// The pool's reply as a mathematical value.
pub open spec fn reply_view(reply: Result<Option<LeaseData>, PoolError>) -> Result<
    Option<LeaseDataView>,
    PoolErrorView,
> {
    match reply {
        Ok(Some(data)) => Ok(Some(data@)),
        Ok(None) => Ok(None),
        Err(error) => Err(error@),
    }
}

/// The account in hand.
pub struct Lease {
    pub account_key: String,
    pub auth: CodexAuth,
    /// When the pool decided for it, in nanoseconds of a monotonic clock.
    pub decided_at: u128,
}

/// The account in hand as mathematical values.
pub struct LeaseView {
    pub account_key: Seq<char>,
    pub auth: AuthView,
    pub decided_at: u128,
}

impl View for Lease {
    type V = LeaseView;

    open spec fn view(&self) -> LeaseView {
        LeaseView {
            account_key: self.account_key@,
            auth: self.auth@,
            decided_at: self.decided_at,
        }
    }
}

/// A process's side of the pool.
pub struct PoolAuth {
    pub config: Config,
    pub lease: Option<Lease>,
}

/// A process's side of the pool as mathematical values.
pub struct PoolView {
    pub config: ConfigView,
    pub lease: Option<LeaseView>,
}

impl View for PoolAuth {
    type V = PoolView;

    open spec fn view(&self) -> PoolView {
        PoolView {
            config: self.config@,
            lease: match self.lease {
                Some(lease) => Some(lease@),
                None => None,
            },
        }
    }
}

/// How an account was asked for.
#[derive(Clone, Copy, Debug, PartialEq, Eq, Structural)]
pub struct LeaseAttempt {
    /// Whether the account in hand may bridge a pool that cannot be reached.
    pub allow_stale: bool,
    /// Whether the request tells the pool of a refusal.
    pub refused: bool,
}

/// What to do to get a credential.
pub enum LeaseStep {
    /// Use the decision that the pool has just made.
    Serve(CodexAuth),
    /// Ask the pool, then settle the attempt with its reply.
    Ask { attempt: LeaseAttempt, call: LeaseCall },
}

/// Everything that leasing an account can change.
pub struct PoolState {
    pub lease: Option<LeaseView>,
    pub ledger: LedgerView,
    pub status: PoolStatus,
}

/// Whether the pool decided for the lease within the coalescing window.
pub open spec fn is_recent(lease: LeaseView, now: u128) -> bool {
    now - lease.decided_at < DECISION_COALESCE
}

/// The recent decision, where there is one.
pub open spec fn recent_auth(lease: Option<LeaseView>, now: u128) -> Option<AuthView> {
    match lease {
        Some(lease) if is_recent(lease, now) => Some(lease.auth),
        _ => None,
    }
}

/// Whether an attempt is answered by the recent decision. A refusal that is
/// still to be reported rules that out: the recent decision is the very account
/// that was refused.
pub open spec fn served_at_once(
    pool: PoolView,
    allow_stale: bool,
    ledger: LedgerView,
    now: u128,
) -> bool {
    allow_stale && ledger.refusal is None && recent_auth(pool.lease, now) is Some
}

/// What the pool is told about the account in hand: the refusal that is still
/// to be reported, else that the credential was answered with 401, where that
/// is why the pool is asked.
pub open spec fn rejection(allow_stale: bool, ledger: LedgerView) -> Option<Seq<char>> {
    match ledger.refusal {
        Some(_) => ledger.refusal,
        None => if allow_stale {
            None
        } else {
            Some(REJECT_UNAUTHORIZED@)
        },
    }
}

/// The request that asks the pool for an account.
pub open spec fn lease_request(
    pool: PoolView,
    reject: Option<Seq<char>>,
    ledger: LedgerView,
) -> PoolRequestView {
    PoolRequestView {
        device_id: pool.config.device_id,
        account_key: match pool.lease {
            Some(lease) => Some(lease.account_key),
            None => None,
        },
        reject,
        want_account: pool.config.want_account,
        cwd: ledger.cwd,
        sessions: report(ledger.rows),
    }
}

/// Where lease requests go.
pub open spec fn lease_url_of(config: ConfigView) -> Seq<char> {
    config.base_url + PATH_PREFIX@ + "/lease"@
}

/// Where release requests go.
pub open spec fn release_url_of(config: ConfigView) -> Seq<char> {
    config.base_url + PATH_PREFIX@ + "/release"@
}

/// The state without an account in hand.
pub open spec fn forgotten(state: PoolState) -> PoolState {
    PoolState {
        lease: None,
        ledger: LedgerView { held: None, held_email: None, ..state.ledger },
        ..state
    }
}

/// The state once the pool has been reached: a refusal that travelled with the
/// request is settled.
pub open spec fn delivered(state: PoolState, attempt: LeaseAttempt) -> PoolState {
    if attempt.refused {
        PoolState { ledger: LedgerView { refusal: None, ..state.ledger }, ..state }
    } else {
        state
    }
}

/// The state with a newly leased account in hand.
pub open spec fn leased(
    state: PoolState,
    account_key: Seq<char>,
    auth: AuthView,
    now: u128,
) -> PoolState {
    PoolState {
        lease: Some(LeaseView { account_key, auth, decided_at: now }),
        ledger: LedgerView { held: Some(account_key), held_email: auth.email(), ..state.ledger },
        status: state.status.when_serving(),
    }
}

/// The state after an attempt that the pool answered with `reply`.
pub open spec fn settled(
    state: PoolState,
    attempt: LeaseAttempt,
    reply: Result<Option<LeaseDataView>, PoolErrorView>,
    tokens: TokenCheckView,
    now: u128,
) -> PoolState {
    match reply {
        Ok(Some(data)) => match validated(data, tokens) {
            Ok(auth) => leased(delivered(state, attempt), data.account_key, auth, now),
            Err(_) => forgotten(delivered(state, attempt)),
        },
        Ok(None) => {
            let told = delivered(state, attempt);
            forgotten(PoolState { status: told.status.when_exhausted(), ..told })
        },
        Err(_) => if state.lease is Some {
            state
        } else {
            forgotten(state)
        },
    }
}

/// The result of an attempt that the pool answered with `reply`.
pub open spec fn settled_outcome(
    state: PoolState,
    attempt: LeaseAttempt,
    reply: Result<Option<LeaseDataView>, PoolErrorView>,
    tokens: TokenCheckView,
) -> Result<AuthView, PoolErrorView> {
    match reply {
        Ok(Some(data)) => validated(data, tokens),
        Ok(None) => Err(PoolErrorView::NoAccountAvailable),
        Err(error) => match state.lease {
            Some(lease) if attempt.allow_stale && !attempt.refused => Ok(lease.auth),
            _ => Err(error),
        },
    }
}

/// Everything that leasing an account can change.
pub open spec fn state_of(pool: PoolAuth, ledger: Ledger, status: PoolStatus) -> PoolState {
    PoolState { lease: pool@.lease, ledger: ledger@, status }
}

impl PoolAuth {
    /// A process's side of the pool, with no account in hand.
    pub fn new(config: Config) -> (r: Self)
        ensures
            r@ == (PoolView { config: config@, lease: None }),
    {
        PoolAuth { config, lease: None }
    }

    /// Starts to get a credential at the monotonic time `now`. `allow_stale`
    /// says whether the account in hand may bridge a pool that cannot be
    /// reached; after a 401 it may not.
    pub fn current(&self, allow_stale: bool, ledger: &Ledger, now: u128) -> (step: LeaseStep)
        ensures
            step is Serve <==> served_at_once(self@, allow_stale, ledger@, now),
            step matches LeaseStep::Serve(auth) ==> Some(auth@) == recent_auth(self@.lease, now),
            step matches LeaseStep::Ask { attempt, call } ==> {
                &&& attempt == (LeaseAttempt { allow_stale, refused: ledger@.refusal is Some })
                &&& call.url@ == lease_url_of(self@.config)
                &&& call.key@ == self@.config.key
                &&& call.request@ == lease_request(self@, rejection(allow_stale, ledger@), ledger@)
            },
    {
        let refusal = refusal_reason(ledger);
        let refused = refusal.is_some();
        if !refused && allow_stale {
            if let Some(auth) = self.recent_decision(now) {
                return LeaseStep::Serve(auth);
            }
        }
        let reject = match refusal {
            Some(reason) => Some(reason),
            None => if allow_stale {
                None
            } else {
                Some(REJECT_UNAUTHORIZED.to_owned())
            },
        };
        LeaseStep::Ask {
            attempt: LeaseAttempt { allow_stale, refused },
            call: self.post(self.held_account(), reject, ledger),
        }
    }

    /// Starts to get the credential for a request.
    pub fn resolve(&self, ledger: &Ledger, now: u128) -> (step: LeaseStep)
        ensures
            step is Serve <==> served_at_once(self@, true, ledger@, now),
            step matches LeaseStep::Serve(auth) ==> Some(auth@) == recent_auth(self@.lease, now),
            step matches LeaseStep::Ask { attempt, call } ==> {
                &&& attempt == (LeaseAttempt {
                    allow_stale: true,
                    refused: ledger@.refusal is Some,
                })
                &&& call.url@ == lease_url_of(self@.config)
                &&& call.key@ == self@.config.key
                &&& call.request@ == lease_request(self@, ledger@.refusal, ledger@)
            },
    {
        self.current(true, ledger, now)
    }

    /// Starts to get another credential after a 401. The pool is always asked.
    pub fn refresh(&self, ledger: &Ledger, now: u128) -> (step: LeaseStep)
        ensures
            step matches LeaseStep::Ask { attempt, call } && {
                &&& attempt == (LeaseAttempt {
                    allow_stale: false,
                    refused: ledger@.refusal is Some,
                })
                &&& call.url@ == lease_url_of(self@.config)
                &&& call.key@ == self@.config.key
                &&& call.request@ == lease_request(self@, rejection(false, ledger@), ledger@)
            },
    {
        self.current(false, ledger, now)
    }

    /// Settles an attempt with the pool's reply at the monotonic time `now`.
    /// `tokens` is what the host found in the access token; it counts only
    /// where [`needs_token_check`] holds of the lease.
    pub fn settle(
        &mut self,
        attempt: LeaseAttempt,
        reply: Result<Option<LeaseData>, PoolError>,
        tokens: TokenCheck,
        ledger: &mut Ledger,
        status: &mut PoolStatus,
        now: u128,
    ) -> (r: Result<CodexAuth, PoolError>)
        ensures
            final(self)@.config == old(self)@.config,
            state_of(*final(self), *final(ledger), *final(status)) == settled(
                state_of(*old(self), *old(ledger), *old(status)),
                attempt,
                reply_view(reply),
                tokens@,
                now,
            ),
            outcome_view(r) == settled_outcome(
                state_of(*old(self), *old(ledger), *old(status)),
                attempt,
                reply_view(reply),
                tokens@,
            ),
    {
        if attempt.refused && reply.is_ok() {
            clear_refusal(ledger);
        }
        match reply {
            Ok(Some(data)) => match Self::validate(&data, &tokens) {
                Ok(auth) => {
                    mark_pool_serving(status);
                    Ok(self.store(data.account_key, auth, ledger, now))
                },
                Err(error) => {
                    self.forget_lease(ledger);
                    Err(error)
                },
            },
            Ok(None) => {
                mark_pool_exhausted(status);
                self.forget_lease(ledger);
                Err(PoolError::NoAccountAvailable)
            },
            Err(error) => match self.cached_auth() {
                Some(auth) => if attempt.allow_stale && !attempt.refused {
                    Ok(auth)
                } else {
                    Err(error)
                },
                None => {
                    self.forget_lease(ledger);
                    Err(error)
                },
            },
        }
    }

    /// The call that asks the pool for an account.
    pub fn post(
        &self,
        account_key: Option<String>,
        reject: Option<String>,
        ledger: &Ledger,
    ) -> (call: LeaseCall)
        ensures
            call.url@ == lease_url_of(self@.config),
            call.key@ == self@.config.key,
            call.request@ == (PoolRequestView {
                account_key: opt_text(account_key),
                ..lease_request(self@, opt_text(reject), ledger@)
            }),
    {
        LeaseCall {
            url: self.config.base_url.clone().concat(PATH_PREFIX).concat("/lease"),
            key: self.config.key.clone(),
            request: PoolRequest {
                device_id: self.config.device_id.clone(),
                account_key,
                reject,
                want_account: clone_opt(&self.config.want_account),
                cwd: session_cwd(ledger),
                sessions: pending_usage(ledger),
            },
        }
    }

    /// The call that gives the account back and takes the last usage along.
    pub fn release(&self, ledger: &Ledger) -> (call: ReleaseCall)
        ensures
            call.url@ == release_url_of(self@.config),
            call.key@ == self@.config.key,
            call.request@ == (ReleaseRequestView {
                device_id: self@.config.device_id,
                sessions: report(ledger@.rows),
            }),
    {
        ReleaseCall {
            url: self.config.base_url.clone().concat(PATH_PREFIX).concat("/release"),
            key: self.config.key.clone(),
            request: ReleaseRequest {
                device_id: self.config.device_id.clone(),
                sessions: pending_usage(ledger),
            },
        }
    }

    /// The credential that a lease gives.
    pub fn validate(data: &LeaseData, tokens: &TokenCheck) -> (r: Result<CodexAuth, PoolError>)
        ensures
            outcome_view(r) == validated(data@, tokens@),
    {
        let account_id = match &data.auth_json.tokens.account_id {
            Some(account_id) => account_id,
            None => {
                return Err(PoolError::MissingAccountId);
            },
        };
        let access_token = data.auth_json.tokens.access_token.as_str();
        if is_personal_access_token(access_token) {
            return Ok(
                CodexAuth::PersonalAccessToken(
                    PersonalAccessTokenAuth::from_external(
                        access_token,
                        Self::user_id_of(data.account_key.as_str()),
                        account_id.as_str(),
                        as_opt_str(&data.plan),
                    ),
                ),
            );
        }
        match tokens {
            TokenCheck::Accepted { email } => Ok(
                CodexAuth::ChatgptTokens(
                    ChatgptTokens {
                        access_token: access_token.to_owned(),
                        account_id: account_id.clone(),
                        plan: clone_opt(&data.plan),
                        email: clone_opt(email),
                    },
                ),
            ),
            TokenCheck::Rejected(cause) => Err(PoolError::InvalidTokens(cause.clone())),
        }
    }

    /// The user of an account key `user::account`; empty for a key of another
    /// form, rather than made up.
    pub fn user_id_of(account_key: &str) -> (r: &str)
        ensures
            r@ == user_of(account_key@),
    {
        let chars = chars_of(account_key);
        let n: usize = chars.len();
        let mut i: usize = 0;
        while n - i > 1
            invariant
                n == chars@.len(),
                chars@ == account_key@,
                i <= n,
                user_of(account_key@) == before_separator(account_key@, i as int),
            decreases n - i,
        {
            if chars[i] == ':' && chars[i + 1] == ':' {
                return account_key.substring_char(0, i);
            }
            i = i + 1;
        }
        account_key.substring_char(0, 0)
    }

    /// Takes a newly leased account in hand.
    fn store(
        &mut self,
        account_key: String,
        auth: CodexAuth,
        ledger: &mut Ledger,
        now: u128,
    ) -> (r: CodexAuth)
        ensures
            r@ == auth@,
            final(self)@ == (PoolView {
                lease: Some(
                    LeaseView { account_key: account_key@, auth: auth@, decided_at: now },
                ),
                ..old(self)@
            }),
            final(ledger)@ == (LedgerView {
                held: Some(account_key@),
                held_email: auth@.email(),
                ..old(ledger)@
            }),
    {
        set_held_account(ledger, Some(account_key.clone()), auth.get_account_email());
        self.lease = Some(Lease { account_key, auth: auth.clone(), decided_at: now });
        auth
    }

    /// The decision that the pool has just made, where there is one.
    pub fn recent_decision(&self, now: u128) -> (r: Option<CodexAuth>)
        ensures
            (match r {
                Some(auth) => Some(auth@),
                None => None,
            }) == recent_auth(self@.lease, now),
    {
        match &self.lease {
            Some(lease) => if now.saturating_sub(lease.decided_at) < DECISION_COALESCE {
                Some(lease.auth.clone())
            } else {
                None
            },
            None => None,
        }
    }

    /// The credential of the account in hand.
    pub fn cached_auth(&self) -> (r: Option<CodexAuth>)
        ensures
            (match r {
                Some(auth) => Some(auth@),
                None => None,
            }) == (match self@.lease {
                Some(lease) => Some(lease.auth),
                None => None,
            }),
    {
        match &self.lease {
            Some(lease) => Some(lease.auth.clone()),
            None => None,
        }
    }

    /// Lets go of the account in hand: the pool will not hand it out again.
    /// Kept, it would be charged for what is used without it.
    fn forget_lease(&mut self, ledger: &mut Ledger)
        ensures
            final(self)@ == (PoolView { lease: None, ..old(self)@ }),
            final(ledger)@ == (LedgerView { held: None, held_email: None, ..old(ledger)@ }),
    {
        set_held_account(ledger, None, None);
        self.lease = None;
    }

    /// The account in hand.
    pub fn held_account(&self) -> (r: Option<String>)
        ensures
            opt_text(r) == (match self@.lease {
                Some(lease) => Some(lease.account_key),
                None => None,
            }),
    {
        match &self.lease {
            Some(lease) => Some(lease.account_key.clone()),
            None => None,
        }
    }
}

/// Whether the host has to look into the access token of a lease.
pub fn needs_token_check(data: &LeaseData) -> (r: bool)
    ensures
        r == (data@.account_id is Some && !begins_with(data@.access_token, TOKEN_PREFIX@)),
{
    data.auth_json.tokens.account_id.is_some() && !is_personal_access_token(
        data.auth_json.tokens.access_token.as_str(),
    )
}

/// What an envelope says.
pub open spec fn opened(envelope: Envelope) -> Result<Option<LeaseDataView>, PoolErrorView> {
    if envelope.code != 0 {
        Err(
            PoolErrorView::LeaseRejected(
                match envelope.message {
                    Some(message) => message@,
                    None => Seq::empty(),
                },
            ),
        )
    } else {
        match envelope.data {
            Some(data) => Ok(Some(data@)),
            None => Ok(None),
        }
    }
}

/// What the answer to a lease request says.
pub open spec fn lease_reply(answer: Result<HttpAnswer<Envelope>, String>) -> Result<
    Option<LeaseDataView>,
    PoolErrorView,
> {
    match answer {
        Err(cause) => Err(PoolErrorView::Unreachable(cause@)),
        Ok(answer) => if success(answer.status.code) {
            match answer.content {
                Ok(envelope) => opened(envelope),
                Err(cause) => Err(PoolErrorView::Undecodable(cause@)),
            }
        } else {
            Err(
                PoolErrorView::LeaseFailed { status: answer.status.line@, body: answer.text@ },
            )
        },
    }
}

/// What an envelope says.
pub fn open_envelope(envelope: Envelope) -> (r: Result<Option<LeaseData>, PoolError>)
    ensures
        reply_view(r) == opened(envelope),
{
    if envelope.code != 0 {
        let message = match envelope.message {
            Some(message) => message,
            None => String::new(),
        };
        return Err(PoolError::LeaseRejected(message));
    }
    Ok(envelope.data)
}

/// Reads the answer to a lease request. An error stands for a call that did not
/// get through, with its cause.
pub fn read_lease_answer(answer: Result<HttpAnswer<Envelope>, String>) -> (r: Result<
    Option<LeaseData>,
    PoolError,
>)
    ensures
        reply_view(r) == lease_reply(answer),
{
    let answer = match answer {
        Ok(answer) => answer,
        Err(cause) => {
            return Err(PoolError::Unreachable(cause));
        },
    };
    if !is_success(answer.status.code) {
        return Err(PoolError::LeaseFailed { status: answer.status.line, body: answer.text });
    }
    match answer.content {
        Ok(envelope) => open_envelope(envelope),
        Err(cause) => Err(PoolError::Undecodable(cause)),
    }
}

/// Reads the answer to a release request. An error stands for a call that did
/// not get through, with its cause.
pub fn read_release_answer(answer: Result<HttpStatus, String>) -> (r: Result<(), PoolError>)
    ensures
        r is Ok <==> (answer matches Ok(status) && success(status.code)),
        r matches Err(error) ==> error@ == (match answer {
            Ok(status) => PoolErrorView::ReleaseFailed(status.line@),
            Err(cause) => PoolErrorView::Unreachable(cause@),
        }),
{
    match answer {
        Ok(status) => if is_success(status.code) {
            Ok(())
        } else {
            Err(PoolError::ReleaseFailed(status.line))
        },
        Err(cause) => Err(PoolError::Unreachable(cause)),
    }
}

/// The session ends: the call that gives the account back. Nothing is called
/// where no pool was installed.
pub fn release_on_exit(installed: Option<&PoolAuth>, ledger: &Ledger) -> (r: Option<ReleaseCall>)
    ensures
        r is Some <==> installed is Some,
        r matches Some(call) ==> installed matches Some(pool) && {
            &&& call.url@ == release_url_of(pool@.config)
            &&& call.key@ == pool@.config.key
            &&& call.request@ == (ReleaseRequestView {
                device_id: pool@.config.device_id,
                sessions: report(ledger@.rows),
            })
        },
{
    match installed {
        Some(pool) => Some(pool.release(ledger)),
        None => None,
    }
}

/// How the first lease of a process went.
#[derive(Clone, Copy, Debug, PartialEq, Eq, Structural)]
pub enum StartupLease {
    /// The pool handed out an account.
    Served,
    /// This host may never use the pool.
    RejectedPermanently,
    /// There was no account at that moment.
    Failed,
}

/// What becomes of the pool at startup.
#[derive(Clone, Copy, Debug, PartialEq, Eq, Structural)]
pub enum Installation {
    /// The pool is in use.
    Installed,
    /// The pool will be asked when a credential is needed.
    InstalledLazily,
    /// The host keeps its own credentials.
    KeptLocal,
}

/// Decides what becomes of the pool at startup. A lease that merely failed
/// does not count against the pool for the rest of the process, and does not
/// leave it marked as out of accounts.
pub fn install_if_configured(outcome: StartupLease, status: &mut PoolStatus) -> (r: Installation)
    ensures
        r == (match outcome {
            StartupLease::Served => Installation::Installed,
            StartupLease::RejectedPermanently => Installation::KeptLocal,
            StartupLease::Failed => Installation::InstalledLazily,
        }),
        *final(status) == (if outcome == StartupLease::Served {
            *old(status)
        } else {
            old(status).when_serving()
        }),
{
    match outcome {
        StartupLease::Served => Installation::Installed,
        StartupLease::RejectedPermanently => {
            mark_pool_serving(status);
            Installation::KeptLocal
        },
        StartupLease::Failed => {
            mark_pool_serving(status);
            Installation::InstalledLazily
        },
    }
}

} // verus!
