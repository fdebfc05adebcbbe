//! What holds of compaction across attempts.

use crate::compaction::{
    ends_compaction, ledger_after_remote_failure, next_wait, stopped_by_user, FIRST_WAIT, MAX_WAIT,
};
use crate::error::CodexErr;
use crate::laws::retry::a_refusal_changes_the_refusal_alone;
use crate::ledger::LedgerView;
use crate::retry::{account_scoped, ends_turn, reason_of};
use vstd::prelude::*;

verus! {

/// The wait after `failures` failures of a local compaction.
pub open spec fn wait_after(failures: nat) -> u128
    decreases failures,
{
    if failures == 0 {
        FIRST_WAIT
    } else {
        next_wait(wait_after((failures - 1) as nat))
    }
}

/// The waits are half a minute, a minute, and two minutes from there on.
pub proof fn the_waits_level_off(failures: nat)
    ensures
        wait_after(0) == 30_000_000_000,
        wait_after(1) == 60_000_000_000,
        failures >= 2 ==> wait_after(failures) == MAX_WAIT,
        FIRST_WAIT <= wait_after(failures) <= wait_after(failures + 1) <= MAX_WAIT,
    decreases failures,
{
    reveal_with_fuel(wait_after, 4);
    if failures > 2 {
        the_waits_level_off((failures - 1) as nat);
    }
}

/// The user's stop is never overridden: what ends the remote side also ends the
/// local one.
pub proof fn a_stop_ends_every_compaction(err: CodexErr)
    requires
        stopped_by_user(err),
    ensures
        ends_compaction(Err(err)),
        ends_turn(err),
{
}

/// What a local compaction ends with, given the outcomes of its attempts; `None`
/// while it goes on.
pub open spec fn concluded(outcomes: Seq<Result<(), CodexErr>>) -> Option<Result<(), CodexErr>>
    decreases outcomes.len(),
{
    if outcomes.len() == 0 {
        None
    } else if ends_compaction(outcomes.first()) {
        Some(outcomes.first())
    } else {
        concluded(outcomes.drop_first())
    }
}

/// Only success or the user's stop ends a local compaction, and either does:
/// whatever else fails, it goes on.
pub proof fn only_success_or_a_stop_ends_a_compaction(outcomes: Seq<Result<(), CodexErr>>)
    ensures
        concluded(outcomes) matches Some(end) ==> end is Ok || (end matches Err(err)
            && stopped_by_user(err)),
        concluded(outcomes) is None <==> forall|i: int|
            0 <= i < outcomes.len() ==> !ends_compaction(#[trigger] outcomes[i]),
    decreases outcomes.len(),
{
    if outcomes.len() > 0 {
        let rest = outcomes.drop_first();
        only_success_or_a_stop_ends_a_compaction(rest);
        assert forall|i: int| 0 <= i < rest.len() implies ends_compaction(#[trigger] rest[i])
            == ends_compaction(outcomes[i + 1]) by {}
        if concluded(outcomes) is None {
            assert forall|i: int| 0 <= i < outcomes.len() implies !ends_compaction(
                #[trigger] outcomes[i],
            ) by {
                if i > 0 {
                    assert(rest[i - 1] == outcomes[i]);
                }
            }
        } else if !ends_compaction(outcomes.first()) {
            let i = choose|i: int| 0 <= i < rest.len() && ends_compaction(#[trigger] rest[i]);
            assert(ends_compaction(outcomes[i + 1]));
        }
    }
}

/// However often a local compaction failed, one attempt that works ends it well,
/// and a stop ends it with the stop.
pub proof fn a_compaction_succeeds_in_the_end(
    failures: Seq<Result<(), CodexErr>>,
    end: Result<(), CodexErr>,
)
    requires
        forall|i: int| 0 <= i < failures.len() ==> !ends_compaction(#[trigger] failures[i]),
        ends_compaction(end),
    ensures
        concluded(failures.push(end)) == Some(end),
    decreases failures.len(),
{
    let all = failures.push(end);
    if failures.len() > 0 {
        let rest = failures.drop_first();
        assert(all.first() == failures[0]);
        assert(all.drop_first() =~= rest.push(end));
        assert forall|i: int| 0 <= i < rest.len() implies !ends_compaction(#[trigger] rest[i]) by {
            assert(rest[i] == failures[i + 1]);
        }
        a_compaction_succeeds_in_the_end(rest, end);
    }
}

/// Before a compaction goes on locally, the pool is to be told why the account
/// was refused; nothing else on the ledger changes.
pub proof fn a_refused_account_is_reported_first(ledger: LedgerView, err: CodexErr)
    ensures
        ledger_after_remote_failure(ledger, err) == (if account_scoped(err, ledger) {
            LedgerView { refusal: reason_of(err), ..ledger }
        } else {
            ledger
        }),
{
    a_refusal_changes_the_refusal_alone(ledger, err);
}

/// The user's stop is one of two errors, and no other.
pub proof fn a_stop_is_one_of_two(err: CodexErr, outcome: Result<(), CodexErr>)
    ensures
        stopped_by_user(err) <==> err.details is TurnAborted || err.details is Interrupted,
        ends_compaction(outcome) <==> outcome is Ok || (outcome matches Err(cause) && (
        cause.details is TurnAborted || cause.details is Interrupted)),
{
}

/// A wait is followed by one twice as long, up to two minutes.
pub proof fn a_wait_doubles_up_to_two_minutes(wait: u128)
    ensures
        wait <= 60_000_000_000 ==> next_wait(wait) == 2 * wait,
        wait >= 60_000_000_000 ==> next_wait(wait) == 120_000_000_000,
{
}

} // verus!
