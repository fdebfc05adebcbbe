use codext_pool::compaction::{
    clone_injection, compact_prompt, recover_from_remote_failure, recover_manual_compaction,
    CompactionStep, InitialContextInjection, LocalCompaction, LocalFallback,
};
use codext_pool::error::{CodexErr, CodexErrorDetails};
use codext_pool::ledger::{refusal_reason, set_held_account, Ledger};
use std::sync::Arc;

const SECOND: u128 = 1_000_000_000;

fn error(details: CodexErrorDetails) -> CodexErr {
    CodexErr { details, retryable: false, retry_delay: None, http_status: None }
}

#[test]
fn a_copied_injection_shares_its_contents() {
    let world = Arc::new(7u8);
    let step = Arc::new("step");
    let injection = InitialContextInjection::BeforeLastUserMessage {
        world_state: world.clone(),
        step_context: step.clone(),
    };
    match clone_injection(&injection) {
        InitialContextInjection::BeforeLastUserMessage { world_state, step_context } => {
            assert!(Arc::ptr_eq(&world_state, &world));
            assert!(Arc::ptr_eq(&step_context, &step));
            assert_eq!(Arc::strong_count(&world), 3);
        }
        InitialContextInjection::DoNotInject => panic!("the injection was lost"),
    }
    let none: InitialContextInjection<u8, u8> = InitialContextInjection::DoNotInject;
    assert!(matches!(clone_injection(&none), InitialContextInjection::DoNotInject));
}

#[test]
fn a_stop_is_not_compacted_around() {
    let mut ledger = Ledger::new();
    for details in [CodexErrorDetails::TurnAborted, CodexErrorDetails::Interrupted] {
        let err = error(details);
        assert_eq!(recover_from_remote_failure(&err, "stop", &mut ledger), None);
        assert_eq!(recover_manual_compaction(&err, "stop", &mut ledger), None);
    }
    assert_eq!(refusal_reason(&ledger), None);
}

#[test]
fn a_remote_failure_goes_on_locally() {
    let mut ledger = Ledger::new();
    let err = error(CodexErrorDetails::ServerOverloaded);
    assert_eq!(
        recover_from_remote_failure(&err, "busy", &mut ledger),
        Some(LocalFallback {
            warning: "Remote compaction failed; compacting locally instead. busy".to_string(),
            manual: false,
        })
    );
    assert_eq!(refusal_reason(&ledger), None);
    let full = error(CodexErrorDetails::UsageLimitReached { resets_at: None });
    assert_eq!(
        recover_manual_compaction(&full, "full", &mut ledger),
        Some(LocalFallback {
            warning: "Remote compaction failed; compacting locally instead. full".to_string(),
            manual: true,
        })
    );
    assert_eq!(refusal_reason(&ledger).as_deref(), Some("usage_limit"));
    // Billing is about the account only while the pool serves one.
    let billing = error(CodexErrorDetails::QuotaExceeded);
    assert!(recover_from_remote_failure(&billing, "bill", &mut ledger).is_some());
    assert_eq!(refusal_reason(&ledger).as_deref(), Some("usage_limit"));
    set_held_account(&mut ledger, Some("a".to_string()), Some("a@example.com".to_string()));
    assert!(recover_from_remote_failure(&billing, "bill", &mut ledger).is_some());
    assert_eq!(refusal_reason(&ledger).as_deref(), Some("quota_exceeded"));
}

#[test]
fn a_local_compaction_waits_longer_and_speaks_once() {
    let err = error(CodexErrorDetails::ServerOverloaded);
    let mut compaction = LocalCompaction::new();
    let warning = "Compaction failed and will keep retrying until it succeeds; press Esc to stop. \
                   busy";
    assert_eq!(
        compaction.attempted(Err(&err), "busy"),
        CompactionStep::Retry { warning: Some(warning.to_string()), delay: 30 * SECOND }
    );
    for seconds in [60, 120, 120, 120] {
        assert_eq!(
            compaction.attempted(Err(&err), "busy"),
            CompactionStep::Retry { warning: None, delay: seconds * SECOND }
        );
    }
    assert_eq!(compaction.attempted(Ok(()), ""), CompactionStep::Done);
    let stop = error(CodexErrorDetails::Interrupted);
    assert_eq!(compaction.attempted(Err(&stop), "stop"), CompactionStep::GiveUp);
}

/// Only success and the user's own stop end a local compaction.
#[test]
fn a_local_compaction_outlasts_every_error_but_a_stop() {
    let mut compaction = LocalCompaction::new();
    for details in [
        CodexErrorDetails::ContextWindowExceeded,
        CodexErrorDetails::SessionBudgetExceeded,
        CodexErrorDetails::CyberPolicy { message: "refused".to_string() },
        CodexErrorDetails::UsageLimitReached { resets_at: None },
        CodexErrorDetails::Fatal,
    ] {
        let step = compaction.attempted(Err(&error(details)), "failed");
        assert!(matches!(step, CompactionStep::Retry { .. }), "{step:?}");
    }
    assert_eq!(compaction.attempted(Ok(()), ""), CompactionStep::Done);

    for details in [CodexErrorDetails::TurnAborted, CodexErrorDetails::Interrupted] {
        let mut stopped = LocalCompaction::new();
        assert_eq!(stopped.attempted(Err(&error(details)), "stop"), CompactionStep::GiveUp);
    }
}

#[test]
fn the_configured_prompt_comes_first() {
    assert_eq!(compact_prompt(Some("mine"), "default"), "mine");
    assert_eq!(compact_prompt(Some(""), "default"), "");
    assert_eq!(compact_prompt(None, "default"), "default");
}
