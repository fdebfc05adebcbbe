//! What happens when compaction of the context fails.
//!
//! Compaction starts because the context is full, so a turn cannot go on
//! without it. A remote compaction that fails is followed by a local one, and
//! the local one is tried until it works or the user stops it.

use crate::error::{CodexErr, CodexErrorDetails};
use crate::ledger::{Ledger, LedgerView};
use crate::retry::{note_refusal, with_refusal};
use crate::text::opt_text;
use std::sync::Arc;
use vstd::prelude::*;

verus! {

/// The wait after the first failure of a local compaction, in nanoseconds.
pub const FIRST_WAIT: u128 = 30_000_000_000;

/// The longest wait between two local compactions, in nanoseconds. A longer
/// one would not look like waiting.
pub const MAX_WAIT: u128 = 120_000_000_000;

/// What a compaction puts in front of the compacted context.
pub enum InitialContextInjection<W, S> {
    BeforeLastUserMessage { world_state: Arc<W>, step_context: Arc<S> },
    DoNotInject,
}

/// Another handle on what `handle` points to, from `std::sync::Arc::clone`. It
/// is claimed to point to the same value.
#[verifier::external_body]
fn another_handle<T>(handle: &Arc<T>) -> (r: Arc<T>)
    ensures
        r == *handle,
{
    Arc::clone(handle)
}

/// A copy of the injection for one more attempt. The contents are shared.
pub fn clone_injection<W, S>(injection: &InitialContextInjection<W, S>) -> (r:
    InitialContextInjection<W, S>)
    ensures
        r == *injection,
{
    match injection {
        InitialContextInjection::BeforeLastUserMessage { world_state, step_context } => {
            InitialContextInjection::BeforeLastUserMessage {
                world_state: another_handle(world_state),
                step_context: another_handle(step_context),
            }
        },
        InitialContextInjection::DoNotInject => InitialContextInjection::DoNotInject,
    }
}

/// Whether the error is the user's own stop.
pub open spec fn stopped_by_user(err: CodexErr) -> bool {
    err.details is TurnAborted || err.details is Interrupted
}

/// Whether a local compaction is over with the outcome of an attempt: it worked,
/// or the user stopped it.
pub open spec fn ends_compaction(outcome: Result<(), CodexErr>) -> bool {
    match outcome {
        Ok(_) => true,
        Err(err) => stopped_by_user(err),
    }
}

/// Whether the error is the user's own stop.
fn is_user_stop(err: &CodexErr) -> (r: bool)
    ensures
        r == stopped_by_user(*err),
{
    matches!(&err.details, CodexErrorDetails::TurnAborted | CodexErrorDetails::Interrupted)
}

/// The ledger once a remote compaction failed. The pool is to be told of an
/// account that was refused; it would hand it out again for the local one.
pub open spec fn ledger_after_remote_failure(ledger: LedgerView, err: CodexErr) -> LedgerView {
    with_refusal(ledger, err)
}

/// How a compaction goes on locally.
#[derive(Debug, PartialEq, Eq)]
pub struct LocalFallback {
    /// What to say first.
    pub warning: String,
    /// Whether the user asked for the compaction.
    pub manual: bool,
}

/// Decides how a compaction goes on whose remote side failed. `None` means that
/// the error goes to the caller: the user's own stop is not overridden.
fn fall_back(err: &CodexErr, rendered_error: &str, manual: bool, ledger: &mut Ledger) -> (r: Option<
    LocalFallback,
>)
    ensures
        r is None <==> stopped_by_user(*err),
        final(ledger)@ == ledger_after_remote_failure(old(ledger)@, *err),
        r matches Some(fallback) ==> {
            &&& fallback.warning@ == "Remote compaction failed; compacting locally instead. "@
                + rendered_error@
            &&& fallback.manual == manual
        },
{
    if is_user_stop(err) {
        return None;
    }
    note_refusal(err, ledger);
    Some(
        LocalFallback {
            warning: "Remote compaction failed; compacting locally instead. ".to_owned().concat(
                rendered_error,
            ),
            manual,
        },
    )
}

/// Decides how an automatic compaction goes on whose remote side failed. `None`
/// means that the error goes to the caller.
pub fn recover_from_remote_failure(err: &CodexErr, rendered_error: &str, ledger: &mut Ledger) -> (r:
    Option<LocalFallback>)
    ensures
        r is None <==> stopped_by_user(*err),
        final(ledger)@ == ledger_after_remote_failure(old(ledger)@, *err),
        r matches Some(fallback) ==> {
            &&& fallback.warning@ == "Remote compaction failed; compacting locally instead. "@
                + rendered_error@
            &&& !fallback.manual
        },
{
    fall_back(err, rendered_error, false, ledger)
}

/// Decides how a compaction goes on that the user asked for and whose remote
/// side failed. `None` means that the error goes to the caller.
pub fn recover_manual_compaction(err: &CodexErr, rendered_error: &str, ledger: &mut Ledger) -> (r:
    Option<LocalFallback>)
    ensures
        r is None <==> stopped_by_user(*err),
        final(ledger)@ == ledger_after_remote_failure(old(ledger)@, *err),
        r matches Some(fallback) ==> {
            &&& fallback.warning@ == "Remote compaction failed; compacting locally instead. "@
                + rendered_error@
            &&& fallback.manual
        },
{
    fall_back(err, rendered_error, true, ledger)
}

/// The prompt of a compaction that the user asked for: the configured one, else
/// the host's own.
pub fn compact_prompt(configured: Option<&str>, summarization_prompt: &str) -> (r: String)
    ensures
        r@ == (match configured {
            Some(prompt) => prompt@,
            None => summarization_prompt@,
        }),
{
    match configured {
        Some(prompt) => prompt.to_owned(),
        None => summarization_prompt.to_owned(),
    }
}

/// The wait that follows a wait: twice as long, up to the longest.
pub open spec fn next_wait(wait: u128) -> u128 {
    if 2 * wait <= MAX_WAIT {
        (2 * wait) as u128
    } else {
        MAX_WAIT
    }
}

/// A local compaction that is tried until it works.
pub struct LocalCompaction {
    wait: u128,
    announced: bool,
}

/// What to do after an attempt at a local compaction.
#[derive(Debug, PartialEq, Eq)]
pub enum CompactionStep {
    /// The compaction is done.
    Done,
    /// The error goes to the caller.
    GiveUp,
    /// Say the warning, wait so many nanoseconds, and try again.
    Retry { warning: Option<String>, delay: u128 },
}

impl LocalCompaction {
    #[verifier::type_invariant]
    spec fn bounded(self) -> bool {
        FIRST_WAIT <= self.wait <= MAX_WAIT
    }

    /// The wait after the next failure.
    pub closed spec fn next_delay(self) -> u128 {
        self.wait
    }

    /// Whether a failure has been spoken of.
    pub closed spec fn has_spoken(self) -> bool {
        self.announced
    }

    /// A local compaction before its first attempt.
    pub fn new() -> (r: Self)
        ensures
            r.next_delay() == FIRST_WAIT,
            !r.has_spoken(),
    {
        LocalCompaction { wait: FIRST_WAIT, announced: false }
    }

    /// Takes in the outcome of an attempt: no error, or one with its text. Only
    /// success and the user's own stop end the compaction; every other failure
    /// is retried. Only the first failure is spoken of; after that the growing
    /// waits speak for themselves.
    pub fn attempted(&mut self, outcome: Result<(), &CodexErr>, rendered_error: &str) -> (step:
        CompactionStep)
        ensures
            match outcome {
                Ok(_) => {
                    &&& step is Done
                    &&& *final(self) == *old(self)
                },
                Err(err) if stopped_by_user(*err) => {
                    &&& step is GiveUp
                    &&& *final(self) == *old(self)
                },
                Err(_) => {
                    &&& step matches CompactionStep::Retry { warning, delay } && {
                        &&& delay == old(self).next_delay()
                        &&& opt_text(warning) == (if old(self).has_spoken() {
                            None
                        } else {
                            Some(
                                "Compaction failed and will keep retrying until it succeeds; press Esc to stop. "@
                                    + rendered_error@,
                            )
                        })
                    }
                    &&& final(self).next_delay() == next_wait(old(self).next_delay())
                    &&& final(self).has_spoken()
                },
            },
            !(step is Retry) <==> ends_compaction(
                match outcome {
                    Ok(_) => Ok(()),
                    Err(err) => Err(*err),
                },
            ),
    {
        let err = match outcome {
            Ok(_) => {
                return CompactionStep::Done;
            },
            Err(err) => err,
        };
        if is_user_stop(err) {
            return CompactionStep::GiveUp;
        }
        proof {
            use_type_invariant(&*self);
        }
        let warning = if self.announced {
            None
        } else {
            Some(
                "Compaction failed and will keep retrying until it succeeds; press Esc to stop. ".to_owned().concat(
                rendered_error),
            )
        };
        let delay: u128 = self.wait;
        self.announced = true;
        self.wait = if 2 * delay <= MAX_WAIT {
            2 * delay
        } else {
            MAX_WAIT
        };
        CompactionStep::Retry { warning, delay }
    }
}

} // verus!
