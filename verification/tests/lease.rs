use codext_pool::auth::CodexAuth;
use codext_pool::config::Config;
use codext_pool::http::{HttpAnswer, HttpStatus};
use codext_pool::lease::{
    install_if_configured, needs_token_check, open_envelope, read_lease_answer,
    read_release_answer, release_on_exit, AuthJson, Envelope, Installation, LeaseAttempt,
    LeaseCall, LeaseData, LeaseStep, PoolAuth, PoolError, StartupLease, TokenCheck, Tokens,
    DECISION_COALESCE, IDLE_TICK, POOL_TIMEOUT, REJECT_UNAUTHORIZED, TOKEN_HEADER,
};
use codext_pool::ledger::{
    held_account_email, record_turn_usage, record_turn_usage_at, refusal_reason,
    report_account_refused, set_held_account, set_session_cwd, Ledger, TokenUsage,
};
use codext_pool::status::{pool_is_exhausted, take_pool_exhaustion_notice, PoolStatus};

const JWT: &str = "eyJhbGciOiJub25lIn0.eyJhIjoxfQ.sig";

fn config(want_account: Option<&str>) -> Config {
    Config {
        base_url: "https://pool.example.com".to_string(),
        key: "test-key".to_string(),
        device_id: "test-device".to_string(),
        want_account: want_account.map(str::to_string),
    }
}

fn lease_data(account_key: &str, access_token: &str, account_id: Option<&str>) -> LeaseData {
    LeaseData {
        account_key: account_key.to_string(),
        plan: Some("plus".to_string()),
        auth_json: AuthJson {
            tokens: Tokens {
                access_token: access_token.to_string(),
                account_id: account_id.map(str::to_string),
            },
        },
    }
}

fn claims() -> TokenCheck {
    TokenCheck::Accepted { email: Some("acct-pool@example.com".to_string()) }
}

fn turn(total: i64) -> TokenUsage {
    TokenUsage {
        input_tokens: total,
        cached_input_tokens: 0,
        output_tokens: 0,
        reasoning_output_tokens: 0,
        total_tokens: total,
    }
}

/// One process: its side of the pool, its ledger and its status, and the calls
/// that were made.
struct Process {
    pool: PoolAuth,
    ledger: Ledger,
    status: PoolStatus,
    now: u128,
    calls: Vec<LeaseCall>,
}

impl Process {
    fn wanting(want_account: Option<&str>) -> Self {
        Process {
            pool: PoolAuth::new(config(want_account)),
            ledger: Ledger::new(),
            status: PoolStatus::new(),
            now: 50_000_000_000,
            calls: Vec::new(),
        }
    }

    fn new() -> Self {
        Self::wanting(None)
    }

    /// Asks for a credential, with a pool that answers `reply` where it is
    /// asked.
    fn current(
        &mut self,
        allow_stale: bool,
        reply: Result<Option<LeaseData>, PoolError>,
    ) -> Result<CodexAuth, PoolError> {
        match self.pool.current(allow_stale, &self.ledger, self.now) {
            LeaseStep::Serve(auth) => Ok(auth),
            LeaseStep::Ask { attempt, call } => {
                self.calls.push(call);
                self.pool.settle(
                    attempt,
                    reply,
                    claims(),
                    &mut self.ledger,
                    &mut self.status,
                    self.now,
                )
            }
        }
    }

    fn served(&mut self, account_key: &str) -> CodexAuth {
        match self.current(true, Ok(Some(lease_data(account_key, JWT, Some("acct-pool"))))) {
            Ok(auth) => auth,
            Err(error) => panic!("{error:?}"),
        }
    }

    /// Lets the window of the last decision pass.
    fn next_request(&mut self) {
        self.now += DECISION_COALESCE;
    }

    fn last_call(&self) -> &LeaseCall {
        self.calls.last().expect("the pool was called")
    }
}

fn unreachable() -> Result<Option<LeaseData>, PoolError> {
    Err(PoolError::Unreachable("connection refused".to_string()))
}

/// The answer of a server that does not know the address.
fn not_found() -> Result<Option<LeaseData>, PoolError> {
    read_lease_answer(Ok(HttpAnswer {
        status: HttpStatus { code: 404, line: "404 Not Found".to_string() },
        text: String::new(),
        content: Err("not read".to_string()),
    }))
}

fn failed(r: Result<CodexAuth, PoolError>) -> PoolError {
    match r {
        Ok(_) => panic!("a credential was given"),
        Err(error) => error,
    }
}

/// The wanted account is part of every lease request.
#[test]
fn a_wanted_account_is_sent_with_every_lease_request() {
    let mut process = Process::wanting(Some("someone@example.com"));
    process.served("acct-a");
    process.next_request();
    process.served("acct-a");
    assert_eq!(process.calls.len(), 2);
    for call in &process.calls {
        assert_eq!(call.url, "https://pool.example.com/x8Rk3Nq6Vd2/lease");
        assert_eq!(call.request.want_account.as_deref(), Some("someone@example.com"));
    }
}

/// Where no account is wanted, none is named.
#[test]
fn no_wanted_account_means_the_field_is_absent() {
    let mut process = Process::wanting(None);
    process.served("acct-a");
    assert!(process.calls[0].request.want_account.is_none());
}

/// The calls around one request make one call to the pool.
#[test]
fn the_calls_around_one_request_collapse_into_one_pool_call() {
    let mut process = Process::new();
    for _ in 0..20 {
        process.served("acct-a");
        process.now += DECISION_COALESCE / 20;
    }
    assert_eq!(process.calls.len(), 1);
    process.served("acct-a");
    assert_eq!(process.calls.len(), 2);
}

/// The next request gets a decision of its own.
#[test]
fn the_next_request_gets_a_fresh_decision() {
    let mut process = Process::new();
    process.served("acct-a");
    process.next_request();
    process.served("acct-a");
    assert_eq!(process.calls.len(), 2);
}

/// The account in hand goes back to the pool.
#[test]
fn the_held_account_is_sent_back_to_the_pool() {
    let mut process = Process::new();
    process.served("acct-a");
    assert_eq!(process.last_call().request.account_key, None);
    process.next_request();
    process.served("acct-a");
    assert_eq!(process.last_call().request.device_id, "test-device");
    assert_eq!(process.last_call().request.account_key.as_deref(), Some("acct-a"));
}

/// While the credential is still in use, so is its account.
#[test]
fn a_failed_lease_keeps_the_held_account_while_the_credential_is_still_in_use() {
    let mut process = Process::new();
    process.served("acct-a");
    assert!(held_account_email(&process.ledger).is_some());

    report_account_refused(&mut process.ledger, "retry_limit_429");
    process.next_request();
    let answer = HttpAnswer {
        status: HttpStatus { code: 500, line: "500 Internal Server Error".to_string() },
        text: "down".to_string(),
        content: Err("not read".to_string()),
    };
    let error = failed(process.current(true, read_lease_answer(Ok(answer))));
    assert_eq!(error.message(), "pool lease failed: 500 Internal Server Error: down");

    assert!(process.pool.cached_auth().is_some());
    assert!(held_account_email(&process.ledger).is_some());
    assert_eq!(refusal_reason(&process.ledger).as_deref(), Some("retry_limit_429"));
    assert_eq!(process.last_call().request.reject.as_deref(), Some("retry_limit_429"));
}

/// A pool that cannot be reached does not end a working lease.
#[test]
fn an_unreachable_pool_does_not_drop_a_working_lease() {
    let mut process = Process::new();
    let first = process.served("acct-a");
    process.next_request();
    for reply in [not_found(), unreachable()] {
        let reused = match process.current(true, reply) {
            Ok(auth) => auth,
            Err(error) => panic!("{error:?}"),
        };
        assert_eq!(reused.get_account_id(), first.get_account_id());
    }
    assert_eq!(first.get_account_id(), "acct-pool");
}

/// A rejected credential is not used again.
#[test]
fn a_rejected_credential_is_not_served_from_cache() {
    let mut process = Process::new();
    process.served("acct-a");
    let error = failed(process.current(false, not_found()));
    assert_eq!(error.message(), "pool lease failed: 404 Not Found: ");
    let error = failed(process.current(false, unreachable()));
    assert_eq!(error.message(), "connection refused");
    assert_eq!(process.calls.len(), 3);
}

/// A 401 is told to the pool.
#[test]
fn a_401_is_reported_so_the_pool_can_park_the_account() {
    let mut process = Process::new();
    process.served("acct-a");
    assert_eq!(process.last_call().request.reject, None);
    let data = lease_data("acct-a", JWT, Some("acct-pool"));
    assert!(process.current(false, Ok(Some(data))).is_ok());
    assert_eq!(process.last_call().request.reject.as_deref(), Some("unauthorized"));
    assert_eq!(REJECT_UNAUTHORIZED, "unauthorized");
}

/// A pool without accounts is no unreachable pool: the lease is let go.
#[test]
fn an_empty_pool_does_not_keep_riding_the_old_lease() {
    let mut process = Process::new();
    process.served("acct-a");
    process.next_request();

    let error = failed(process.current(true, Ok(None)));
    assert_eq!(error, PoolError::NoAccountAvailable);
    assert_eq!(error.message(), "no account available in the pool");
    assert!(process.pool.lease.is_none());
    assert_eq!(process.pool.held_account(), None);
    assert_eq!(process.ledger.held, None);
    assert_eq!(held_account_email(&process.ledger), None);
    assert!(pool_is_exhausted(&process.status));
    assert!(take_pool_exhaustion_notice(&mut process.status));

    process.served("acct-b");
    assert!(!pool_is_exhausted(&process.status));
    assert_eq!(process.ledger.held.as_deref(), Some("acct-b"));
}

/// An opaque token becomes a personal access token.
#[test]
fn an_opaque_pool_token_becomes_personal_access_token_auth() {
    let raw: serde_json::Value = serde_json::from_str(
        r#"{"account_key":"user-HEmy30VWx07XyeNh3STGa8bK::74ffdf33-9204-4797-9b00-2a6120b4f91c",
            "plan":"team",
            "auth_json":{"tokens":{"id_token":"","access_token":"at-Mq7xOpaque",
                                   "account_id":"74ffdf33-9204-4797-9b00-2a6120b4f91c"}}}"#,
    )
    .expect("lease data");
    let data = parse_lease(&raw);

    assert!(!needs_token_check(&data));
    let auth = match PoolAuth::validate(&data, &TokenCheck::Rejected("opaque".to_string())) {
        Ok(auth) => auth,
        Err(error) => panic!("{error:?}"),
    };
    assert!(auth.is_personal_access_token_auth());
    assert!(!auth.is_external_chatgpt_tokens());
    assert_eq!(auth.get_account_id(), "74ffdf33-9204-4797-9b00-2a6120b4f91c");
    match auth {
        CodexAuth::PersonalAccessToken(token) => {
            assert_eq!(token.access_token(), "at-Mq7xOpaque");
            assert_eq!(token.chatgpt_user_id(), "user-HEmy30VWx07XyeNh3STGa8bK");
            assert_eq!(token.plan_type(), "team");
            assert_eq!(token.email(), None);
            assert!(!token.is_fedramp_account());
        }
        CodexAuth::ChatgptTokens(_) => panic!("an opaque token is a personal access token"),
    }
}

/// A signed token stays what it was.
#[test]
fn a_jwt_pool_token_still_becomes_chatgpt_auth_tokens() {
    let raw: serde_json::Value = serde_json::from_str(
        r#"{"account_key":"user-abc::acct-def","plan":"plus",
            "auth_json":{"tokens":{"access_token":"eyJhbGciOiJub25lIn0.eyJhIjoxfQ.sig",
                                   "account_id":"acct-def"}}}"#,
    )
    .expect("lease data");
    let data = parse_lease(&raw);

    assert!(needs_token_check(&data));
    let auth = match PoolAuth::validate(&data, &TokenCheck::Accepted { email: None }) {
        Ok(auth) => auth,
        Err(error) => panic!("{error:?}"),
    };
    assert!(auth.is_external_chatgpt_tokens());
    assert_eq!(auth.get_account_email(), None);
    assert_eq!(auth.get_account_id(), "acct-def");
    match auth {
        CodexAuth::ChatgptTokens(tokens) => {
            assert_eq!(tokens.access_token, JWT);
            assert_eq!(tokens.plan.as_deref(), Some("plus"));
        }
        CodexAuth::PersonalAccessToken(_) => panic!("a signed token is no personal access token"),
    }
}

fn parse_lease(raw: &serde_json::Value) -> LeaseData {
    let text = |value: &serde_json::Value| value.as_str().map(str::to_string);
    let tokens = &raw["auth_json"]["tokens"];
    LeaseData {
        account_key: text(&raw["account_key"]).expect("account key"),
        plan: text(&raw["plan"]),
        auth_json: AuthJson {
            tokens: Tokens {
                access_token: text(&tokens["access_token"]).expect("access token"),
                account_id: text(&tokens["account_id"]),
            },
        },
    }
}

/// The user stands before the separator; a key of another form names none.
#[test]
fn the_user_id_comes_from_the_account_key() {
    assert_eq!(PoolAuth::user_id_of("user-1::acct-2"), "user-1");
    assert_eq!(PoolAuth::user_id_of("没有分隔符"), "");
    assert_eq!(PoolAuth::user_id_of("用户::号"), "用户");
    assert_eq!(PoolAuth::user_id_of("a::b::c"), "a");
    assert_eq!(PoolAuth::user_id_of("a:b::c"), "a:b");
    assert_eq!(PoolAuth::user_id_of("a:::c"), "a");
    assert_eq!(PoolAuth::user_id_of("::c"), "");
    assert_eq!(PoolAuth::user_id_of("a::"), "a");
    assert_eq!(PoolAuth::user_id_of("a:"), "");
    assert_eq!(PoolAuth::user_id_of(""), "");
}

/// Releasing does not lease.
#[test]
fn releasing_does_not_go_through_the_lease_endpoint() {
    let pool = PoolAuth::new(config(None));
    let call = pool.release(&Ledger::new());
    assert_eq!(call.url, "https://pool.example.com/x8Rk3Nq6Vd2/release");
    assert_eq!(call.request.device_id, "test-device");
    let done = read_release_answer(Ok(HttpStatus { code: 200, line: "200 OK".to_string() }));
    assert_eq!(done, Ok(()));
}

/// The last turn travels with the release.
#[test]
fn the_last_turn_rides_out_on_the_release() {
    let mut ledger = Ledger::new();
    set_held_account(&mut ledger, Some("acct-a".to_string()), None);
    record_turn_usage(&mut ledger, "session-z", "gpt-5.5", &turn(1234));

    let pool = PoolAuth::new(config(None));
    let sessions = pool.release(&ledger).request.sessions;
    assert_eq!(sessions.len(), 1);
    assert_eq!(sessions[0].session_id, "session-z");
    assert_eq!(sessions[0].total_tokens, 1234);
}

/// A process that installed the pool gives its account back when it ends; one
/// that did not has nothing to call.
#[test]
fn the_exit_hook_is_wired_into_the_cli_entry_point() {
    let pool = PoolAuth::new(config(None));
    let ledger = Ledger::new();
    assert!(release_on_exit(None, &ledger).is_none());
    let call = release_on_exit(Some(&pool), &ledger).expect("release_on_exit calls the pool");
    assert_eq!(call.url, "https://pool.example.com/x8Rk3Nq6Vd2/release");
    assert_eq!(call.key, "test-key");
    assert_eq!(call.request.device_id, "test-device");
    assert!(call.request.sessions.is_empty());
}

/// A pool that has no account when the process starts is installed nevertheless,
/// and serves once it can.
#[test]
fn a_pool_that_cannot_serve_at_startup_is_still_installed_and_recovers() {
    let mut process = Process::new();
    failed(process.current(true, Ok(None)));
    assert!(pool_is_exhausted(&process.status));
    let installed = install_if_configured(StartupLease::Failed, &mut process.status);
    assert_eq!(installed, Installation::InstalledLazily);
    assert!(!pool_is_exhausted(&process.status));

    let auth = process.served("acct-a");
    assert_eq!(auth.get_account_id(), "acct-pool");
}

#[test]
fn a_host_that_may_never_use_the_pool_keeps_its_own_credentials() {
    let mut status = PoolStatus::new();
    assert_eq!(
        install_if_configured(StartupLease::RejectedPermanently, &mut status),
        Installation::KeptLocal
    );
    assert_eq!(install_if_configured(StartupLease::Served, &mut status), Installation::Installed);
    assert_eq!(status, PoolStatus::new());
}

#[test]
fn a_request_tells_where_the_session_works_and_what_it_used() {
    let mut process = Process::new();
    process.served("acct-a");
    set_session_cwd(&mut process.ledger, "/work");
    record_turn_usage_at(&mut process.ledger, "s-1", "gpt-5", &turn(9), 100);
    process.next_request();
    process.served("acct-a");
    let request = &process.last_call().request;
    assert_eq!(request.cwd.as_deref(), Some("/work"));
    assert_eq!(request.sessions.len(), 1);
    assert_eq!(request.sessions[0].account_key.as_deref(), Some("acct-a"));
    assert_eq!(process.last_call().key, "test-key");
}

/// A refusal bypasses the window, is told once, and is then settled.
#[test]
fn a_refusal_is_told_at_once_and_settled() {
    let mut process = Process::new();
    process.served("acct-a");
    report_account_refused(&mut process.ledger, "usage_limit");
    process.served("acct-b");
    assert_eq!(process.calls.len(), 2);
    assert_eq!(process.last_call().request.reject.as_deref(), Some("usage_limit"));
    assert_eq!(refusal_reason(&process.ledger), None);
    assert_eq!(process.pool.held_account().as_deref(), Some("acct-b"));
    process.served("acct-b");
    assert_eq!(process.calls.len(), 2);
}

#[test]
fn an_unreachable_pool_without_a_lease_gives_nothing() {
    let mut process = Process::new();
    let error = failed(process.current(true, unreachable()));
    assert_eq!(error, PoolError::Unreachable("connection refused".to_string()));
    assert!(!pool_is_exhausted(&process.status));
}

#[test]
fn unusable_credentials_let_go_of_the_lease() {
    let mut process = Process::new();
    process.served("acct-a");
    process.next_request();
    let error = failed(process.current(true, Ok(Some(lease_data("acct-b", JWT, None)))));
    assert_eq!(error.message(), "pool returned credentials without a chatgpt account id");
    assert!(process.pool.lease.is_none());
    assert_eq!(process.ledger.held, None);

    let checked = process.pool.settle(
        LeaseAttempt { allow_stale: true, refused: false },
        Ok(Some(lease_data("acct-b", JWT, Some("acct-pool")))),
        TokenCheck::Rejected("no claims".to_string()),
        &mut process.ledger,
        &mut process.status,
        process.now,
    );
    assert_eq!(failed(checked), PoolError::InvalidTokens("no claims".to_string()));
    assert!(!needs_token_check(&lease_data("acct-b", JWT, None)));
}

#[test]
fn resolving_may_be_served_at_once_and_refreshing_never() {
    let mut process = Process::new();
    process.served("acct-a");
    assert!(matches!(process.pool.resolve(&process.ledger, process.now), LeaseStep::Serve(_)));
    match process.pool.refresh(&process.ledger, process.now) {
        LeaseStep::Serve(_) => panic!("a rejected credential was served"),
        LeaseStep::Ask { attempt, call } => {
            assert_eq!(attempt, LeaseAttempt { allow_stale: false, refused: false });
            assert_eq!(call.request.reject.as_deref(), Some("unauthorized"));
        }
    }
    assert!(process.pool.recent_decision(process.now + DECISION_COALESCE).is_none());
}

#[test]
fn an_answer_is_read_by_its_status_and_envelope() {
    let status = |code: u16| HttpStatus { code, line: code.to_string() };
    let answer = |code: u16, content: Result<Envelope, String>| {
        read_lease_answer(Ok(HttpAnswer { status: status(code), text: "text".to_string(), content }))
    };
    let envelope = |code: i64, message: Option<&str>| Envelope {
        code,
        data: None,
        message: message.map(str::to_string),
    };
    let error = |r: Result<Option<LeaseData>, PoolError>| match r {
        Ok(_) => panic!("an error was expected"),
        Err(error) => error.message(),
    };
    assert!(matches!(answer(200, Ok(envelope(0, None))), Ok(None)));
    assert!(matches!(answer(299, Ok(envelope(0, Some("fine")))), Ok(None)));
    assert_eq!(error(answer(300, Ok(envelope(0, None)))), "pool lease failed: 300: text");
    assert_eq!(error(answer(199, Ok(envelope(0, None)))), "pool lease failed: 199: text");
    assert_eq!(error(answer(200, Err("bad json".to_string()))), "bad json");
    assert_eq!(error(answer(200, Ok(envelope(7, Some("no"))))), "pool lease rejected: no");
    assert_eq!(error(open_envelope(envelope(-1, None))), "pool lease rejected: ");
    assert_eq!(error(read_lease_answer(Err("lost".to_string()))), "lost");
    let data = Envelope {
        code: 0,
        data: Some(lease_data("acct-a", JWT, None)),
        message: None,
    };
    match answer(200, Ok(data)) {
        Ok(Some(data)) => assert_eq!(data.account_key, "acct-a"),
        _ => panic!("the lease was lost"),
    }

    assert_eq!(
        read_release_answer(Ok(status(404))),
        Err(PoolError::ReleaseFailed("404".to_string()))
    );
    assert_eq!(
        PoolError::ReleaseFailed("404".to_string()).message(),
        "pool release failed: 404"
    );
    assert_eq!(
        read_release_answer(Err("lost".to_string())),
        Err(PoolError::Unreachable("lost".to_string()))
    );
    assert_eq!(PoolError::InvalidTokens("why".to_string()).message(), "why");
}

#[test]
fn the_pool_is_called_by_its_own_rules() {
    assert_eq!(TOKEN_HEADER, "X-Codex-Pool-Token");
    assert_eq!(POOL_TIMEOUT, 3_000_000_000);
    assert_eq!(IDLE_TICK, 20_000_000_000);
    assert_eq!(DECISION_COALESCE, 1_000_000_000);
}
