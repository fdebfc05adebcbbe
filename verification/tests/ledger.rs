use codext_pool::ledger::{
    attach_ledger, attach_ledger_at, clear_refusal, held_account_email, pending_usage,
    record_turn_usage, record_turn_usage_at, refusal_reason, report_account_refused, session_cwd,
    set_held_account, set_session_cwd, Ledger, LedgerRow, SessionUsage, TokenUsage, UsageCounters,
    LEDGER_KEEP_SECONDS, MAX_LEDGER_ROWS,
};
use codext_pool::lease::REJECT_USAGE_LIMIT;

fn turn(total: i64) -> TokenUsage {
    TokenUsage {
        input_tokens: total,
        cached_input_tokens: 0,
        output_tokens: 0,
        reasoning_output_tokens: 0,
        total_tokens: total,
    }
}

fn row_for<'a>(reported: &'a [SessionUsage], account_key: &str, model: &str) -> &'a SessionUsage {
    reported
        .iter()
        .find(|row| {
            row.account_key.as_deref() == Some(account_key) && row.model.as_deref() == Some(model)
        })
        .unwrap_or_else(|| panic!("no line for {account_key}/{model}: {reported:?}"))
}

fn hold(ledger: &mut Ledger, account_key: &str) {
    set_held_account(ledger, Some(account_key.to_string()), None);
}

fn row(session_id: &str, updated_at: u64) -> LedgerRow {
    LedgerRow {
        session_id: session_id.to_string(),
        account_key: "acct-a".to_string(),
        model: "gpt-5".to_string(),
        counters: UsageCounters::default(),
        updated_at,
    }
}

fn sessions(ledger: &Ledger) -> Vec<&str> {
    ledger.rows.iter().map(|row| row.session_id.as_str()).collect()
}

/// Usage is charged to the account that served the turn.
#[test]
fn usage_follows_the_account_that_served_the_turn() {
    let mut ledger = Ledger::new();

    hold(&mut ledger, "acct-a");
    record_turn_usage(&mut ledger, "s-1", "gpt-5", &turn(100));
    record_turn_usage(&mut ledger, "s-1", "gpt-5", &turn(50));
    hold(&mut ledger, "acct-b");
    record_turn_usage(&mut ledger, "s-1", "gpt-5", &turn(7));

    let reported = pending_usage(&ledger);
    let first = row_for(&reported, "acct-a", "gpt-5");
    assert_eq!((first.requests, first.total_tokens), (2, 150));
    let second = row_for(&reported, "acct-b", "gpt-5");
    assert_eq!((second.requests, second.total_tokens), (1, 7));
}

/// Two models on one account are kept apart.
#[test]
fn each_model_keeps_its_own_line() {
    let mut ledger = Ledger::new();

    hold(&mut ledger, "acct-a");
    record_turn_usage(&mut ledger, "s-1", "gpt-5", &turn(10));
    record_turn_usage(&mut ledger, "s-1", "gpt-5-codex", &turn(300));

    let reported = pending_usage(&ledger);
    assert_eq!(row_for(&reported, "acct-a", "gpt-5").total_tokens, 10);
    assert_eq!(row_for(&reported, "acct-a", "gpt-5-codex").total_tokens, 300);
}

/// Usage without a lease belongs to no account of the pool.
#[test]
fn usage_without_a_lease_is_charged_to_nobody() {
    let mut ledger = Ledger::new();

    set_held_account(&mut ledger, None, None);
    assert!(!record_turn_usage(&mut ledger, "s-1", "gpt-5", &turn(999)));

    assert!(pending_usage(&ledger).is_empty());
}

/// A refusal stays until it has been delivered, and is then gone.
#[test]
fn a_refusal_survives_until_it_is_delivered() {
    let mut ledger = Ledger::new();

    assert_eq!(refusal_reason(&ledger), None);
    report_account_refused(&mut ledger, "http_403");
    assert_eq!(refusal_reason(&ledger).as_deref(), Some("http_403"));
    assert_eq!(refusal_reason(&ledger).as_deref(), Some("http_403"));
    clear_refusal(&mut ledger);
    assert_eq!(refusal_reason(&ledger), None);
}

/// A refusal says why.
#[test]
fn the_refusal_carries_the_reason_not_just_a_flag() {
    let mut ledger = Ledger::new();

    report_account_refused(&mut ledger, REJECT_USAGE_LIMIT);
    assert_eq!(refusal_reason(&ledger).as_deref(), Some(REJECT_USAGE_LIMIT));

    report_account_refused(&mut ledger, "retry_limit_429");
    assert_eq!(refusal_reason(&ledger).as_deref(), Some("retry_limit_429"));

    report_account_refused(&mut ledger, "   ");
    assert_eq!(refusal_reason(&ledger).as_deref(), Some("retry_limit_429"));
}

/// A restart goes on counting from the rows that the run before it left.
#[test]
fn the_ledger_survives_a_restart() {
    let mut ledger = Ledger::new();

    hold(&mut ledger, "acct-a");
    assert!(record_turn_usage(&mut ledger, "s-1", "gpt-5", &turn(120)));
    let saved = std::mem::take(&mut ledger.rows);

    let mut ledger = Ledger::new();
    assert!(pending_usage(&ledger).is_empty());
    attach_ledger(&mut ledger, saved);

    let reported = pending_usage(&ledger);
    assert_eq!(row_for(&reported, "acct-a", "gpt-5").total_tokens, 120);
}

/// Reporting removes nothing.
#[test]
fn reporting_does_not_clear_the_ledger() {
    let mut ledger = Ledger::new();

    hold(&mut ledger, "acct-a");
    record_turn_usage(&mut ledger, "s-1", "gpt-5", &turn(5));

    let first = pending_usage(&ledger);
    let again = pending_usage(&ledger);
    assert_eq!(first, again);
    assert_eq!(first.len(), 1);
}

#[test]
fn every_count_of_a_call_is_written_down() {
    let mut counters = UsageCounters::default();
    let usage = TokenUsage {
        input_tokens: 1,
        cached_input_tokens: 2,
        output_tokens: 3,
        reasoning_output_tokens: 4,
        total_tokens: 5,
    };
    counters.add_turn(&usage);
    counters.add_turn(&usage);
    assert_eq!(
        counters,
        UsageCounters {
            requests: 2,
            input_tokens: 2,
            cached_input_tokens: 4,
            output_tokens: 6,
            reasoning_tokens: 8,
            total_tokens: 10,
        }
    );
}

#[test]
fn a_counter_never_falls_and_never_overflows() {
    let mut counters = UsageCounters {
        requests: u64::MAX,
        total_tokens: u64::MAX - 1,
        input_tokens: 9,
        ..UsageCounters::default()
    };
    counters.add_turn(&TokenUsage { input_tokens: -5, total_tokens: i64::MAX, ..turn(0) });
    assert_eq!(counters.requests, u64::MAX);
    assert_eq!(counters.total_tokens, u64::MAX);
    assert_eq!(counters.input_tokens, 9);
}

#[test]
fn a_report_line_holds_the_whole_row() {
    let mut ledger = Ledger::new();
    hold(&mut ledger, "acct-a");
    assert!(record_turn_usage_at(&mut ledger, "s-1", "", &turn(4), 100));
    assert_eq!(
        pending_usage(&ledger),
        vec![SessionUsage {
            session_id: "s-1".to_string(),
            counter_version: 3,
            account_key: Some("acct-a".to_string()),
            model: None,
            requests: 1,
            input_tokens: 4,
            cached_input_tokens: 0,
            output_tokens: 0,
            reasoning_tokens: 0,
            total_tokens: 4,
        }]
    );
    assert_eq!(ledger.rows[0].updated_at, 100);
}

#[test]
fn a_call_without_a_session_is_not_charged() {
    let mut ledger = Ledger::new();
    hold(&mut ledger, "acct-a");
    assert!(!record_turn_usage_at(&mut ledger, "", "gpt-5", &turn(4), 100));
    assert!(ledger.rows.is_empty());
}

#[test]
fn a_row_is_found_again_or_added() {
    let mut ledger = Ledger::new();
    ledger.find("s", "a", "m").updated_at = 1;
    ledger.find("s", "a", "n").updated_at = 2;
    ledger.find("s", "b", "m").updated_at = 3;
    ledger.find("t", "a", "m").updated_at = 4;
    ledger.find("s", "a", "n").updated_at = 5;
    let stamps: Vec<u64> = ledger.rows.iter().map(|row| row.updated_at).collect();
    assert_eq!(stamps, vec![1, 5, 3, 4]);
}

#[test]
fn old_rows_are_dropped() {
    assert_eq!(LEDGER_KEEP_SECONDS, 21_600);
    let now = 100_000;
    let mut ledger = Ledger::new();
    attach_ledger_at(
        &mut ledger,
        vec![row("old", now - 21_601), row("edge", now - 21_600), row("future", now + 5)],
        now,
    );
    assert_eq!(sessions(&ledger), vec!["edge", "future"]);
    ledger.prune(now);
    assert_eq!(sessions(&ledger), vec!["edge", "future"]);
}

/// Where there are too many rows the newest stay, and rows of the same second
/// keep their order.
#[test]
fn a_long_ledger_keeps_its_newest_rows() {
    assert_eq!(MAX_LEDGER_ROWS, 500);
    let rows = |n: u64| (0..n).map(|i| row(&format!("s-{i}"), 1_000 + i / 2)).collect::<Vec<_>>();
    let mut short = Ledger::new();
    attach_ledger_at(&mut short, rows(500), 2_000);
    assert_eq!(sessions(&short).len(), 500);
    assert_eq!(&sessions(&short)[..3], ["s-0", "s-1", "s-2"]);

    let mut long = Ledger::new();
    attach_ledger_at(&mut long, rows(503), 2_000);
    let kept = sessions(&long);
    assert_eq!(kept.len(), 500);
    assert_eq!(&kept[..5], ["s-502", "s-500", "s-501", "s-498", "s-499"]);
    assert_eq!(&kept[497..], ["s-4", "s-5", "s-2"]);
}

/// A call is not lost by being charged to a full ledger: older rows make room.
#[test]
fn a_charged_call_stays_on_a_full_ledger() {
    let mut ledger = Ledger::new();
    let rows = (0..500).map(|i| row(&format!("s-{i}"), 1_000 + i)).collect();
    attach_ledger_at(&mut ledger, rows, 2_000);
    hold(&mut ledger, "acct-b");
    assert!(record_turn_usage_at(&mut ledger, "new", "gpt-5", &turn(1), 2_000));
    assert_eq!(ledger.rows.len(), 500);
    assert_eq!(ledger.rows[0].session_id, "new");
    assert!(!sessions(&ledger).contains(&"s-0"));
}

/// It is lost where as many rows as fit are newer, as after a clock that ran
/// ahead.
#[test]
fn a_clock_that_ran_ahead_crowds_out_the_present() {
    let mut ledger = Ledger::new();
    let rows = (0..500).map(|i| row(&format!("s-{i}"), 9_000)).collect();
    attach_ledger_at(&mut ledger, rows, 2_000);
    hold(&mut ledger, "acct-b");
    record_turn_usage_at(&mut ledger, "new", "gpt-5", &turn(1), 2_000);
    assert!(!sessions(&ledger).contains(&"new"));
}

#[test]
fn a_long_reason_is_cut_by_characters() {
    let mut ledger = Ledger::new();
    report_account_refused(&mut ledger, &"é".repeat(70));
    assert_eq!(refusal_reason(&ledger), Some("é".repeat(64)));
    report_account_refused(&mut ledger, &format!("  {}\n", "x".repeat(64)));
    assert_eq!(refusal_reason(&ledger), Some("x".repeat(64)));
}

#[test]
fn the_last_directory_counts() {
    let mut ledger = Ledger::new();
    assert_eq!(session_cwd(&ledger), None);
    set_session_cwd(&mut ledger, " /work/one ");
    assert_eq!(session_cwd(&ledger).as_deref(), Some("/work/one"));
    set_session_cwd(&mut ledger, "\t\n");
    assert_eq!(session_cwd(&ledger).as_deref(), Some("/work/one"));
    set_session_cwd(&mut ledger, "/work/two");
    assert_eq!(session_cwd(&ledger).as_deref(), Some("/work/two"));
}

#[test]
fn the_mail_address_goes_with_the_account() {
    let mut ledger = Ledger::new();
    assert_eq!(held_account_email(&ledger), None);
    set_held_account(&mut ledger, Some("acct-a".to_string()), Some("a@example.com".to_string()));
    assert_eq!(held_account_email(&ledger).as_deref(), Some("a@example.com"));
    set_held_account(&mut ledger, None, None);
    assert_eq!(held_account_email(&ledger), None);
}

/// The system clock stamps a row: after the year 2020, and not in the far
/// future.
#[test]
fn a_row_is_stamped_by_the_system_clock() {
    let mut ledger = Ledger::new();
    hold(&mut ledger, "acct-a");
    record_turn_usage(&mut ledger, "s-1", "gpt-5", &turn(1));
    let stamp = ledger.rows[0].updated_at;
    assert!(1_577_836_800 < stamp && stamp < 4_102_444_800, "{stamp}");
    attach_ledger(&mut ledger, vec![row("old", 0), row("fresh", stamp)]);
    assert_eq!(sessions(&ledger), vec!["fresh"]);
}
