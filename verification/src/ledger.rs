//! The usage ledger: what each session spent, on which account, with which
//! model, together with the account in hand and a refusal that is still to be
//! reported.
//!
//! Usage is written down at the moment a model call ends, because only then
//! are the token counts, the account and the model known together.

use crate::clock::{is_clock_second, unix_now};
use crate::text::{clone_opt, opt_text, trim, trimmed};
use vstd::prelude::*;

verus! {

/// How long a row stays on the ledger after it was last touched, in seconds.
///
/// Rows are cumulative and the service keeps the larger value, so reporting a
/// row again is harmless. Keeping it for a while lets the last turn of a short
/// run travel with the next run.
pub const LEDGER_KEEP_SECONDS: u64 = 6 * 3600;

/// How many rows the ledger holds at most.
pub const MAX_LEDGER_ROWS: usize = 500;

/// Version of the counters that are reported: actual usage per session,
/// account and model, counted as each call ends.
pub const USAGE_COUNTER_VERSION: u8 = 3;

/// How many characters of a refusal's reason are kept.
pub const MAX_REASON_CHARS: usize = 64;

/// The token counts of one model call.
#[derive(Clone, Copy, Debug, PartialEq, Eq, Structural)]
pub struct TokenUsage {
    pub input_tokens: i64,
    pub cached_input_tokens: i64,
    pub output_tokens: i64,
    pub reasoning_output_tokens: i64,
    pub total_tokens: i64,
}

/// Cumulative usage. Every counter only ever grows.
#[derive(Clone, Copy, Debug, PartialEq, Eq, Structural)]
pub struct UsageCounters {
    pub requests: u64,
    pub input_tokens: u64,
    pub cached_input_tokens: u64,
    pub output_tokens: u64,
    pub reasoning_tokens: u64,
    pub total_tokens: u64,
}

/// A counter after `value` more: a negative count adds nothing, and the
/// counter stops at its largest value.
pub open spec fn grown(counter: u64, value: int) -> u64 {
    if value <= 0 {
        counter
    } else if counter + value > u64::MAX {
        u64::MAX
    } else {
        (counter + value) as u64
    }
}

/// `counter` after `value` more.
fn grow(counter: u64, value: i64) -> (r: u64)
    ensures
        r == grown(counter, value as int),
{
    if value <= 0 {
        counter
    } else {
        counter.saturating_add(value as u64)
    }
}

impl UsageCounters {
    /// Nothing used yet.
    pub open spec fn none() -> UsageCounters {
        UsageCounters {
            requests: 0,
            input_tokens: 0,
            cached_input_tokens: 0,
            output_tokens: 0,
            reasoning_tokens: 0,
            total_tokens: 0,
        }
    }

    /// These counters after one more call.
    pub open spec fn after_turn(self, usage: TokenUsage) -> UsageCounters {
        UsageCounters {
            requests: grown(self.requests, 1),
            input_tokens: grown(self.input_tokens, usage.input_tokens as int),
            cached_input_tokens: grown(self.cached_input_tokens, usage.cached_input_tokens as int),
            output_tokens: grown(self.output_tokens, usage.output_tokens as int),
            reasoning_tokens: grown(self.reasoning_tokens, usage.reasoning_output_tokens as int),
            total_tokens: grown(self.total_tokens, usage.total_tokens as int),
        }
    }

    /// Whether no counter is below its counterpart in `other`.
    pub open spec fn at_least(self, other: UsageCounters) -> bool {
        &&& self.requests >= other.requests
        &&& self.input_tokens >= other.input_tokens
        &&& self.cached_input_tokens >= other.cached_input_tokens
        &&& self.output_tokens >= other.output_tokens
        &&& self.reasoning_tokens >= other.reasoning_tokens
        &&& self.total_tokens >= other.total_tokens
    }

    /// Adds the call that just ended.
    pub fn add_turn(&mut self, usage: &TokenUsage)
        ensures
            *final(self) == old(self).after_turn(*usage),
    {
        self.requests = self.requests.saturating_add(1);
        self.input_tokens = grow(self.input_tokens, usage.input_tokens);
        self.cached_input_tokens = grow(self.cached_input_tokens, usage.cached_input_tokens);
        self.output_tokens = grow(self.output_tokens, usage.output_tokens);
        self.reasoning_tokens = grow(self.reasoning_tokens, usage.reasoning_output_tokens);
        self.total_tokens = grow(self.total_tokens, usage.total_tokens);
    }
}

impl Default for UsageCounters {
    fn default() -> (r: Self)
        ensures
            r == UsageCounters::none(),
    {
        UsageCounters {
            requests: 0,
            input_tokens: 0,
            cached_input_tokens: 0,
            output_tokens: 0,
            reasoning_tokens: 0,
            total_tokens: 0,
        }
    }
}

/// What one session used on one account with one model.
#[derive(Debug)]
pub struct LedgerRow {
    pub session_id: String,
    pub account_key: String,
    pub model: String,
    pub counters: UsageCounters,
    /// Unix seconds of the last entry. Used for pruning only, never reported.
    pub updated_at: u64,
}

/// What a row is about.
pub struct UsageKey {
    pub session_id: Seq<char>,
    pub account_key: Seq<char>,
    pub model: Seq<char>,
}

/// A row as a mathematical value.
pub struct RowView {
    pub key: UsageKey,
    pub counters: UsageCounters,
    pub updated_at: u64,
}

impl View for LedgerRow {
    type V = RowView;

    open spec fn view(&self) -> RowView {
        RowView {
            key: UsageKey {
                session_id: self.session_id@,
                account_key: self.account_key@,
                model: self.model@,
            },
            counters: self.counters,
            updated_at: self.updated_at,
        }
    }
}

/// The rows of a ledger as mathematical values.
pub open spec fn rows_view(rows: Seq<LedgerRow>) -> Seq<RowView> {
    rows.map_values(|row: LedgerRow| row@)
}

/// The usage ledger of one process.
#[derive(Debug)]
pub struct Ledger {
    /// The account in hand. `None` means that nothing is leased; what is used
    /// meanwhile belongs to no pool account.
    pub held: Option<String>,
    /// The mail address of the account in hand.
    pub held_email: Option<String>,
    /// The directory in which the session works.
    pub cwd: Option<String>,
    /// Why the account in hand was refused, until the pool has been told.
    pub refusal: Option<String>,
    pub rows: Vec<LedgerRow>,
}

/// A ledger as a mathematical value.
#[verifier::ext_equal]
pub struct LedgerView {
    pub held: Option<Seq<char>>,
    pub held_email: Option<Seq<char>>,
    pub cwd: Option<Seq<char>>,
    pub refusal: Option<Seq<char>>,
    pub rows: Seq<RowView>,
}

impl View for Ledger {
    type V = LedgerView;

    open spec fn view(&self) -> LedgerView {
        LedgerView {
            held: opt_text(self.held),
            held_email: opt_text(self.held_email),
            cwd: opt_text(self.cwd),
            refusal: opt_text(self.refusal),
            rows: rows_view(self.rows@),
        }
    }
}

/// Index of the first row about `key`; the number of rows if there is none.
pub open spec fn row_position(rows: Seq<RowView>, key: UsageKey) -> int
    decreases rows.len(),
{
    if rows.len() == 0 {
        0
    } else {
        let before = row_position(rows.drop_last(), key);
        if before < rows.len() - 1 || rows.last().key == key {
            before
        } else {
            rows.len() as int
        }
    }
}

/// `rows`, with an empty row about `key` at the end if there was none.
pub open spec fn with_row(rows: Seq<RowView>, key: UsageKey) -> Seq<RowView> {
    if row_position(rows, key) < rows.len() {
        rows
    } else {
        rows.push(RowView { key, counters: UsageCounters::none(), updated_at: 0 })
    }
}

/// `rows` after one more call was charged to `key` at the second `now`.
pub open spec fn charged(
    rows: Seq<RowView>,
    key: UsageKey,
    usage: TokenUsage,
    now: u64,
) -> Seq<RowView> {
    let at = row_position(rows, key);
    let all = with_row(rows, key);
    all.update(
        at,
        RowView { key: all[at].key, counters: all[at].counters.after_turn(usage), updated_at: now },
    )
}

/// Whether a row is recent enough to keep at the second `now`. A row from the
/// future is.
pub open spec fn is_fresh(row: RowView, now: u64) -> bool {
    now - row.updated_at <= LEDGER_KEEP_SECONDS
}

/// The rows that are recent enough, in their order.
pub open spec fn fresh_rows(rows: Seq<RowView>, now: u64) -> Seq<RowView> {
    rows.filter(|row: RowView| is_fresh(row, now))
}

/// `row` put into `rows`, behind every row that is not older.
pub open spec fn placed_by_age(rows: Seq<RowView>, row: RowView) -> Seq<RowView>
    decreases rows.len(),
{
    if rows.len() == 0 || rows.last().updated_at >= row.updated_at {
        rows.push(row)
    } else {
        placed_by_age(rows.drop_last(), row).push(rows.last())
    }
}

/// `rows` from the newest to the oldest; rows of the same second keep their
/// order.
pub open spec fn newest_first(rows: Seq<RowView>) -> Seq<RowView>
    decreases rows.len(),
{
    if rows.len() == 0 {
        rows
    } else {
        placed_by_age(newest_first(rows.drop_last()), rows.last())
    }
}

/// The rows that survive pruning at the second `now`: the recent ones, and of
/// these the newest where there are too many.
pub open spec fn pruned(rows: Seq<RowView>, now: u64) -> Seq<RowView> {
    let fresh = fresh_rows(rows, now);
    if fresh.len() > MAX_LEDGER_ROWS {
        newest_first(fresh).take(MAX_LEDGER_ROWS as int)
    } else {
        fresh
    }
}

/// The ledger after a call of `session_id` with `model` ended at the second
/// `now`. Without a session, or without an account in hand, nothing is charged.
pub open spec fn recorded(
    ledger: LedgerView,
    session_id: Seq<char>,
    model: Seq<char>,
    usage: TokenUsage,
    now: u64,
) -> LedgerView {
    match ledger.held {
        Some(account_key) if session_id.len() > 0 => {
            let key = UsageKey { session_id, account_key, model };
            LedgerView { rows: pruned(charged(ledger.rows, key, usage, now), now), ..ledger }
        },
        _ => ledger,
    }
}

/// The ledger after the account in hand was refused for `reason`. The reason
/// is trimmed and cut; a blank one is not noted.
pub open spec fn refused(ledger: LedgerView, reason: Seq<char>) -> LedgerView {
    let text = trimmed(reason);
    if text.len() == 0 {
        ledger
    } else if text.len() <= MAX_REASON_CHARS {
        LedgerView { refusal: Some(text), ..ledger }
    } else {
        LedgerView { refusal: Some(text.take(MAX_REASON_CHARS as int)), ..ledger }
    }
}

/// The ledger after the session said where it works. A blank directory is not
/// noted.
pub open spec fn working_in(ledger: LedgerView, cwd: Seq<char>) -> LedgerView {
    let text = trimmed(cwd);
    if text.len() == 0 {
        ledger
    } else {
        LedgerView { cwd: Some(text), ..ledger }
    }
}

pub(crate) proof fn lemma_row_position_bounds(rows: Seq<RowView>, key: UsageKey)
    ensures
        0 <= row_position(rows, key) <= rows.len(),
        row_position(rows, key) < rows.len() ==> rows[row_position(rows, key)].key == key,
        forall|i: int| 0 <= i < row_position(rows, key) ==> (#[trigger] rows[i]).key != key,
    decreases rows.len(),
{
    if rows.len() > 0 {
        lemma_row_position_bounds(rows.drop_last(), key);
        let before = row_position(rows.drop_last(), key);
        assert forall|i: int| 0 <= i < row_position(rows, key) implies (#[trigger] rows[i]).key
            != key by {
            if i < rows.len() - 1 {
                assert(rows.drop_last()[i] == rows[i]);
            }
        }
        if before < rows.len() - 1 {
            assert(rows.drop_last()[before] == rows[before]);
        }
    }
}

proof fn lemma_row_position_is(rows: Seq<RowView>, key: UsageKey, at: int)
    requires
        0 <= at <= rows.len(),
        at < rows.len() ==> rows[at].key == key,
        forall|i: int| 0 <= i < at ==> (#[trigger] rows[i]).key != key,
    ensures
        row_position(rows, key) == at,
{
    lemma_row_position_bounds(rows, key);
    let p = row_position(rows, key);
    if p < at {
        assert(rows[p].key != key);
    } else if at < p {
        assert(rows[at].key != key);
    }
}

proof fn lemma_placed_by_age_len(rows: Seq<RowView>, row: RowView)
    ensures
        placed_by_age(rows, row).len() == rows.len() + 1,
    decreases rows.len(),
{
    if rows.len() > 0 && rows.last().updated_at < row.updated_at {
        lemma_placed_by_age_len(rows.drop_last(), row);
    }
}

proof fn lemma_newest_first_len(rows: Seq<RowView>)
    ensures
        newest_first(rows).len() == rows.len(),
    decreases rows.len(),
{
    if rows.len() > 0 {
        lemma_newest_first_len(rows.drop_last());
        lemma_placed_by_age_len(newest_first(rows.drop_last()), rows.last());
    }
}

impl LedgerRow {
    /// Whether this row is about the given session, account and model.
    fn is_about(&self, session_id: &str, account_key: &str, model: &str) -> (r: bool)
        ensures
            r == (self@.key == (UsageKey {
                session_id: session_id@,
                account_key: account_key@,
                model: model@,
            })),
    {
        crate::text::same_text(self.session_id.as_str(), session_id) && crate::text::same_text(
            self.account_key.as_str(),
            account_key,
        ) && crate::text::same_text(self.model.as_str(), model)
    }
}

impl Ledger {
    /// An empty ledger with no account in hand.
    pub fn new() -> (r: Self)
        ensures
            r@ == (LedgerView {
                held: None,
                held_email: None,
                cwd: None,
                refusal: None,
                rows: Seq::empty(),
            }),
    {
        Ledger { held: None, held_email: None, cwd: None, refusal: None, rows: Vec::new() }
    }

    /// The row about the given session, account and model. An empty one is
    /// added where there is none.
    pub fn find(&mut self, session_id: &str, account_key: &str, model: &str) -> (row:
        &mut LedgerRow)
        ensures
            ({
                let key = UsageKey {
                    session_id: session_id@,
                    account_key: account_key@,
                    model: model@,
                };
                let at = row_position(old(self)@.rows, key);
                let all = with_row(old(self)@.rows, key);
                &&& row@ == all[at]
                &&& final(self)@ == (LedgerView { rows: all.update(at, final(row)@), ..old(self)@ })
            }),
    {
        let ghost key = UsageKey {
            session_id: session_id@,
            account_key: account_key@,
            model: model@,
        };
        let n: usize = self.rows.len();
        let mut at: usize = 0;
        while at < n && !self.rows[at].is_about(session_id, account_key, model)
            invariant
                at <= n,
                n == self.rows@.len(),
                *self == *old(self),
                key == (UsageKey {
                    session_id: session_id@,
                    account_key: account_key@,
                    model: model@,
                }),
                forall|i: int| 0 <= i < at ==> (#[trigger] self.rows@[i])@.key != key,
            decreases n - at,
        {
            at = at + 1;
        }
        proof {
            lemma_row_position_is(self@.rows, key, at as int);
        }
        if at == n {
            self.rows.push(
                LedgerRow {
                    session_id: session_id.to_owned(),
                    account_key: account_key.to_owned(),
                    model: model.to_owned(),
                    counters: UsageCounters::default(),
                    updated_at: 0,
                },
            );
        }
        assert(self@.rows =~= with_row(old(self)@.rows, key));
        &mut self.rows[at]
    }

    /// Drops the rows that are too old, then all but the newest where there
    /// are still too many.
    pub fn prune(&mut self, now: u64)
        ensures
            final(self)@ == (LedgerView { rows: pruned(old(self)@.rows, now), ..old(self)@ }),
    {
        self.drop_stale(now);
        if self.rows.len() > MAX_LEDGER_ROWS {
            proof {
                lemma_newest_first_len(self@.rows);
            }
            self.sort_newest_first();
            let ghost sorted = self@.rows;
            self.rows.truncate(MAX_LEDGER_ROWS);
            assert(self@.rows =~= sorted.take(MAX_LEDGER_ROWS as int));
        }
    }

    /// Drops the rows that are too old.
    fn drop_stale(&mut self, now: u64)
        ensures
            final(self)@ == (LedgerView { rows: fresh_rows(old(self)@.rows, now), ..old(self)@ }),
    {
        let ghost before = self@;
        let ghost recent = |row: RowView| is_fresh(row, now);
        let ghost mut seen: int = 0;
        let mut i: usize = 0;
        proof {
            reveal(Seq::filter);
            assert(before.rows.take(0).filter(recent) =~= self@.rows.take(0));
            assert(before.rows.skip(0) =~= self@.rows.skip(0));
        }
        while i < self.rows.len()
            invariant
                i <= self.rows@.len(),
                0 <= seen <= before.rows.len(),
                before.rows.len() - seen == self.rows@.len() - i,
                recent == (|row: RowView| is_fresh(row, now)),
                self@ == (LedgerView { rows: self@.rows, ..before }),
                self@.rows.take(i as int) == before.rows.take(seen).filter(recent),
                self@.rows.skip(i as int) == before.rows.skip(seen),
            decreases self.rows@.len() - i,
        {
            let ghost mid = self@.rows;
            proof {
                reveal(Seq::filter);
                assert(mid[i as int] == mid.skip(i as int)[0]);
                assert(before.rows[seen] == before.rows.skip(seen)[0]);
                assert(before.rows.take(seen + 1).drop_last() =~= before.rows.take(seen));
                assert(before.rows.skip(seen + 1) =~= before.rows.skip(seen).drop_first());
            }
            if now.saturating_sub(self.rows[i].updated_at) <= LEDGER_KEEP_SECONDS {
                i = i + 1;
                assert(self@.rows.take(i as int) =~= mid.take(i - 1).push(mid[i - 1]));
                assert(self@.rows.skip(i as int) =~= mid.skip(i - 1).drop_first());
            } else {
                self.rows.remove(i);
                assert(self@.rows =~= mid.remove(i as int));
                assert(self@.rows.take(i as int) =~= mid.take(i as int));
                assert(self@.rows.skip(i as int) =~= mid.skip(i as int).drop_first());
            }
            proof {
                seen = seen + 1;
            }
        }
        assert(self@.rows.take(i as int) =~= self@.rows);
        assert(before.rows.take(seen) =~= before.rows);
    }

    /// Orders the rows from the newest to the oldest, keeping the order of
    /// rows of the same second.
    fn sort_newest_first(&mut self)
        ensures
            final(self)@ == (LedgerView { rows: newest_first(old(self)@.rows), ..old(self)@ }),
    {
        let ghost before = self@;
        let n: usize = self.rows.len();
        let mut i: usize = 0;
        assert(before.rows.take(0) =~= Seq::empty());
        assert(self@.rows.take(0) =~= newest_first(before.rows.take(0)));
        assert(self@.rows.skip(0) =~= before.rows.skip(0));
        while i < n
            invariant
                i <= n,
                n == self.rows@.len(),
                n == before.rows.len(),
                self@ == (LedgerView { rows: self@.rows, ..before }),
                self@.rows.take(i as int) == newest_first(before.rows.take(i as int)),
                self@.rows.skip(i as int) == before.rows.skip(i as int),
            decreases n - i,
        {
            let ghost mid = self@.rows;
            let ghost sorted = mid.take(i as int);
            let row = self.rows.remove(i);
            assert(row@ == mid[i as int]);
            let mut at: usize = i;
            assert(sorted.take(i as int) =~= sorted);
            assert(sorted.skip(i as int) =~= Seq::empty());
            assert(placed_by_age(sorted, row@) =~= placed_by_age(sorted.take(at as int), row@)
                + sorted.skip(at as int));
            while at > 0 && self.rows[at - 1].updated_at < row.updated_at
                invariant
                    at <= i,
                    i < n,
                    self.rows@.len() == n - 1,
                    mid.len() == n,
                    self@ == (LedgerView { rows: mid.remove(i as int), ..before }),
                    sorted == mid.take(i as int),
                    placed_by_age(sorted, row@) == placed_by_age(sorted.take(at as int), row@)
                        + sorted.skip(at as int),
                decreases at,
            {
                proof {
                    let head = sorted.take(at as int);
                    assert(self@.rows[at - 1] == mid[at - 1]);
                    assert(head.last() == sorted[at - 1]);
                    assert(head.drop_last() =~= sorted.take(at - 1));
                    assert(placed_by_age(head, row@) + sorted.skip(at as int) =~= placed_by_age(
                        sorted.take(at - 1),
                        row@,
                    ) + sorted.skip(at - 1));
                }
                at = at - 1;
            }
            proof {
                if at > 0 {
                    assert(self@.rows[at - 1] == mid[at - 1]);
                    assert(sorted.take(at as int).last() == sorted[at - 1]);
                }
            }
            let ghost stamp = row@;
            self.rows.insert(at, row);
            proof {
                assert(self@.rows =~= mid.remove(i as int).insert(at as int, stamp));
                assert(self@.rows.take(i + 1) =~= sorted.take(at as int).push(stamp) + sorted.skip(
                    at as int,
                ));
                assert(before.rows.take(i + 1).drop_last() =~= before.rows.take(i as int));
                assert(mid[i as int] == mid.skip(i as int)[0]);
                assert(before.rows[i as int] == before.rows.skip(i as int)[0]);
                assert(self@.rows.skip(i + 1) =~= mid.skip(i as int).drop_first());
                assert(before.rows.skip(i + 1) =~= before.rows.skip(i as int).drop_first());
            }
            i = i + 1;
        }
        assert(self@.rows.take(i as int) =~= self@.rows);
        assert(before.rows.take(i as int) =~= before.rows);
    }
}

/// One line of a usage report.
#[derive(Debug, PartialEq)]
pub struct SessionUsage {
    pub session_id: String,
    pub counter_version: u8,
    pub account_key: Option<String>,
    pub model: Option<String>,
    pub requests: u64,
    pub input_tokens: u64,
    pub cached_input_tokens: u64,
    pub output_tokens: u64,
    pub reasoning_tokens: u64,
    pub total_tokens: u64,
}

/// One line of a usage report as a mathematical value.
pub struct SessionUsageView {
    pub session_id: Seq<char>,
    pub counter_version: u8,
    pub account_key: Option<Seq<char>>,
    pub model: Option<Seq<char>>,
    pub counters: UsageCounters,
}

impl View for SessionUsage {
    type V = SessionUsageView;

    open spec fn view(&self) -> SessionUsageView {
        SessionUsageView {
            session_id: self.session_id@,
            counter_version: self.counter_version,
            account_key: opt_text(self.account_key),
            model: opt_text(self.model),
            counters: UsageCounters {
                requests: self.requests,
                input_tokens: self.input_tokens,
                cached_input_tokens: self.cached_input_tokens,
                output_tokens: self.output_tokens,
                reasoning_tokens: self.reasoning_tokens,
                total_tokens: self.total_tokens,
            },
        }
    }
}

/// The lines of a usage report as mathematical values.
pub open spec fn report_view(lines: Seq<SessionUsage>) -> Seq<SessionUsageView> {
    lines.map_values(|line: SessionUsage| line@)
}

/// The report line of a row. A row without a model names none.
pub open spec fn report_line(row: RowView) -> SessionUsageView {
    SessionUsageView {
        session_id: row.key.session_id,
        counter_version: USAGE_COUNTER_VERSION,
        account_key: Some(row.key.account_key),
        model: if row.key.model.len() == 0 {
            None
        } else {
            Some(row.key.model)
        },
        counters: row.counters,
    }
}

/// The usage report of a ledger: one line for each row, in order.
pub open spec fn report(rows: Seq<RowView>) -> Seq<SessionUsageView> {
    rows.map_values(|row: RowView| report_line(row))
}

impl LedgerRow {
    /// The report line of this row.
    fn to_report_line(&self) -> (r: SessionUsage)
        ensures
            r@ == report_line(self@),
    {
        SessionUsage {
            session_id: self.session_id.clone(),
            counter_version: USAGE_COUNTER_VERSION,
            account_key: Some(self.account_key.clone()),
            model: if self.model.as_str().is_empty() {
                None
            } else {
                Some(self.model.clone())
            },
            requests: self.counters.requests,
            input_tokens: self.counters.input_tokens,
            cached_input_tokens: self.counters.cached_input_tokens,
            output_tokens: self.counters.output_tokens,
            reasoning_tokens: self.counters.reasoning_tokens,
            total_tokens: self.counters.total_tokens,
        }
    }
}

/// Everything on the ledger, in the shape in which it is reported. Reporting
/// removes nothing: a report that was sent and a report that got lost look the
/// same from here.
pub fn pending_usage(ledger: &Ledger) -> (r: Vec<SessionUsage>)
    ensures
        report_view(r@) == report(ledger@.rows),
{
    let mut r: Vec<SessionUsage> = Vec::new();
    let mut i: usize = 0;
    while i < ledger.rows.len()
        invariant
            i <= ledger.rows@.len(),
            report_view(r@) == report(ledger@.rows).take(i as int),
        decreases ledger.rows@.len() - i,
    {
        let ghost lines = report_view(r@);
        let line = ledger.rows[i].to_report_line();
        let ghost added = line@;
        r.push(line);
        assert(report_view(r@) =~= lines.push(added));
        assert(report(ledger@.rows)[i as int] == report_line(ledger@.rows[i as int]));
        assert(report(ledger@.rows).take(i + 1) =~= lines.push(added));
        i = i + 1;
    }
    assert(report(ledger@.rows).take(i as int) =~= report(ledger@.rows));
    r
}

/// Charges a call that ended at the second `now` to the account in hand. The
/// result says whether anything was charged, and the ledger is then worth
/// saving.
pub fn record_turn_usage_at(
    ledger: &mut Ledger,
    session_id: &str,
    model: &str,
    usage: &TokenUsage,
    now: u64,
) -> (charged: bool)
    ensures
        final(ledger)@ == recorded(old(ledger)@, session_id@, model@, *usage, now),
        charged == (session_id@.len() > 0 && old(ledger)@.held is Some),
{
    if session_id.is_empty() {
        return false;
    }
    let account_key = match &ledger.held {
        Some(account_key) => account_key.clone(),
        None => {
            return false;
        },
    };
    let row = ledger.find(session_id, account_key.as_str(), model);
    row.counters.add_turn(usage);
    row.updated_at = now;
    ledger.prune(now);
    true
}

/// Charges a call that just ended to the account in hand, by the system clock.
pub fn record_turn_usage(
    ledger: &mut Ledger,
    session_id: &str,
    model: &str,
    usage: &TokenUsage,
) -> (charged: bool)
    ensures
        exists|now: u64|
            is_clock_second(now) && final(ledger)@ == #[trigger] recorded(
                old(ledger)@,
                session_id@,
                model@,
                *usage,
                now,
            ),
        charged == (session_id@.len() > 0 && old(ledger)@.held is Some),
{
    let now: u64 = unix_now();
    record_turn_usage_at(ledger, session_id, model, usage, now)
}

/// Notes why the account in hand was refused, to be told with the next lease
/// request. A later reason replaces an earlier one.
pub fn report_account_refused(ledger: &mut Ledger, reason: &str)
    ensures
        final(ledger)@ == refused(old(ledger)@, reason@),
{
    let reason = trim(reason);
    if reason.is_empty() {
        return;
    }
    let n: usize = reason.unicode_len();
    let kept = if n > MAX_REASON_CHARS {
        reason.substring_char(0, MAX_REASON_CHARS)
    } else {
        reason
    };
    ledger.refusal = Some(kept.to_owned());
}

/// Notes the directory in which the session works.
pub fn set_session_cwd(ledger: &mut Ledger, cwd: &str)
    ensures
        final(ledger)@ == working_in(old(ledger)@, cwd@),
{
    let cwd = trim(cwd);
    if cwd.is_empty() {
        return;
    }
    ledger.cwd = Some(cwd.to_owned());
}

/// The directory in which the session works.
pub fn session_cwd(ledger: &Ledger) -> (r: Option<String>)
    ensures
        opt_text(r) == ledger@.cwd,
{
    clone_opt(&ledger.cwd)
}

/// Notes which account is in hand.
pub fn set_held_account(ledger: &mut Ledger, account_key: Option<String>, email: Option<String>)
    ensures
        final(ledger)@ == (LedgerView {
            held: opt_text(account_key),
            held_email: opt_text(email),
            ..old(ledger)@
        }),
{
    ledger.held = account_key;
    ledger.held_email = email;
}

/// The mail address of the account in hand.
pub fn held_account_email(ledger: &Ledger) -> (r: Option<String>)
    ensures
        opt_text(r) == ledger@.held_email,
{
    clone_opt(&ledger.held_email)
}

/// The refusal that the pool has not been told of yet. Reading it does not
/// settle it.
pub fn refusal_reason(ledger: &Ledger) -> (r: Option<String>)
    ensures
        opt_text(r) == ledger@.refusal,
{
    clone_opt(&ledger.refusal)
}

/// The pool has been told of the refusal.
pub fn clear_refusal(ledger: &mut Ledger)
    ensures
        final(ledger)@ == (LedgerView { refusal: None, ..old(ledger)@ }),
{
    ledger.refusal = None;
}

/// Takes over the rows that an earlier run left behind, pruned at the second
/// `now`.
pub fn attach_ledger_at(ledger: &mut Ledger, rows: Vec<LedgerRow>, now: u64)
    ensures
        final(ledger)@ == (LedgerView { rows: pruned(rows_view(rows@), now), ..old(ledger)@ }),
{
    ledger.rows = rows;
    ledger.prune(now);
}

/// Takes over the rows that an earlier run left behind, pruned by the system
/// clock.
pub fn attach_ledger(ledger: &mut Ledger, rows: Vec<LedgerRow>)
    ensures
        exists|now: u64|
            is_clock_second(now) && final(ledger)@ == (LedgerView {
                rows: #[trigger] pruned(rows_view(rows@), now),
                ..old(ledger)@
            }),
{
    let now: u64 = unix_now();
    attach_ledger_at(ledger, rows, now);
}

} // verus!
