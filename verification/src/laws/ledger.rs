//! What holds of the usage ledger across operations.

use crate::ledger::{
    charged, fresh_rows, is_fresh, lemma_row_position_bounds, newest_first, placed_by_age, pruned,
    recorded, refused, report, report_line, row_position, with_row, working_in, LedgerView, RowView,
    TokenUsage, UsageCounters, UsageKey, LEDGER_KEEP_SECONDS, MAX_LEDGER_ROWS, MAX_REASON_CHARS,
    USAGE_COUNTER_VERSION,
};
use crate::text::trimmed;
use vstd::prelude::*;

verus! {

/// Counters only grow: no call lowers any of them.
pub proof fn counters_only_grow(counters: UsageCounters, usage: TokenUsage)
    ensures
        counters.after_turn(usage).at_least(counters),
        counters.requests < u64::MAX ==> counters.after_turn(usage).requests == counters.requests
            + 1,
{
}

/// Whether each session, account and model has one row at most.
pub open spec fn distinct_keys(rows: Seq<RowView>) -> bool {
    forall|i: int, j: int|
        0 <= i < j < rows.len() ==> (#[trigger] rows[i]).key != (#[trigger] rows[j]).key
}

/// Whether rows stand from the newest to the oldest.
pub open spec fn by_age(rows: Seq<RowView>) -> bool {
    forall|i: int, j: int|
        0 <= i <= j < rows.len() ==> (#[trigger] rows[i]).updated_at >= (
        #[trigger] rows[j]).updated_at
}

/// How many rows of `rows` go before a row with the given second at `index`:
/// the newer ones, and those of the same second that stand before it.
pub open spec fn ahead_of(rows: Seq<RowView>, second: u64, index: int) -> nat
    decreases rows.len(),
{
    if rows.len() == 0 {
        0
    } else {
        let last = rows.last().updated_at;
        ahead_of(rows.drop_last(), second, index) + if last > second || (last == second
            && rows.len() - 1 < index) {
            1nat
        } else {
            0nat
        }
    }
}

/// Where `placed_by_age` puts a row.
spec fn place(rows: Seq<RowView>, row: RowView) -> int
    decreases rows.len(),
{
    if rows.len() == 0 || rows.last().updated_at >= row.updated_at {
        rows.len() as int
    } else {
        place(rows.drop_last(), row)
    }
}

proof fn lemma_placed(rows: Seq<RowView>, row: RowView)
    ensures
        0 <= place(rows, row) <= rows.len(),
        placed_by_age(rows, row) == rows.take(place(rows, row)).push(row) + rows.skip(
            place(rows, row),
        ),
        place(rows, row) > 0 ==> rows[place(rows, row) - 1].updated_at >= row.updated_at,
        forall|i: int|
            place(rows, row) <= i < rows.len() ==> (#[trigger] rows[i]).updated_at < row.updated_at,
    decreases rows.len(),
{
    let p = place(rows, row);
    if rows.len() == 0 || rows.last().updated_at >= row.updated_at {
        assert(rows.take(p) =~= rows);
        assert(rows.push(row) =~= rows.take(p).push(row) + rows.skip(p));
    } else {
        let front = rows.drop_last();
        lemma_placed(front, row);
        assert(front.take(p) =~= rows.take(p));
        assert(rows.take(p).push(row) + rows.skip(p) =~= (front.take(p).push(row) + front.skip(
            p,
        )).push(rows.last()));
        assert forall|i: int| p <= i < rows.len() implies (#[trigger] rows[i]).updated_at
            < row.updated_at by {
            if i < rows.len() - 1 {
                assert(front[i] == rows[i]);
            }
        }
        if p > 0 {
            assert(front[p - 1] == rows[p - 1]);
        }
    }
}

/// How many rows are not older than the given second.
spec fn since(rows: Seq<RowView>, second: u64) -> nat
    decreases rows.len(),
{
    if rows.len() == 0 {
        0
    } else {
        since(rows.drop_last(), second) + if rows.last().updated_at >= second {
            1nat
        } else {
            0nat
        }
    }
}

proof fn lemma_since_all(rows: Seq<RowView>, second: u64)
    requires
        forall|i: int| 0 <= i < rows.len() ==> (#[trigger] rows[i]).updated_at >= second,
    ensures
        since(rows, second) == rows.len(),
    decreases rows.len(),
{
    if rows.len() > 0 {
        let front = rows.drop_last();
        assert forall|i: int| 0 <= i < front.len() implies (#[trigger] front[i]).updated_at
            >= second by {
            assert(front[i] == rows[i]);
        }
        lemma_since_all(front, second);
    }
}

proof fn lemma_since_placed(rows: Seq<RowView>, row: RowView, second: u64)
    ensures
        since(placed_by_age(rows, row), second) == since(rows, second) + if row.updated_at
            >= second {
            1nat
        } else {
            0nat
        },
    decreases rows.len(),
{
    if rows.len() == 0 || rows.last().updated_at >= row.updated_at {
        assert(rows.push(row).drop_last() =~= rows);
    } else {
        let inner = placed_by_age(rows.drop_last(), row);
        lemma_since_placed(rows.drop_last(), row, second);
        assert(inner.push(rows.last()).drop_last() =~= inner);
    }
}

proof fn lemma_since_sorted(rows: Seq<RowView>, second: u64)
    ensures
        since(newest_first(rows), second) == since(rows, second),
    decreases rows.len(),
{
    if rows.len() > 0 {
        lemma_since_sorted(rows.drop_last(), second);
        lemma_since_placed(newest_first(rows.drop_last()), rows.last(), second);
    }
}

proof fn lemma_place_is_since(rows: Seq<RowView>, row: RowView)
    requires
        by_age(rows),
    ensures
        place(rows, row) == since(rows, row.updated_at),
    decreases rows.len(),
{
    if rows.len() > 0 {
        if rows.last().updated_at >= row.updated_at {
            assert forall|i: int| 0 <= i < rows.len() implies (#[trigger] rows[i]).updated_at
                >= row.updated_at by {
                assert(rows[i].updated_at >= rows[rows.len() - 1].updated_at);
            }
            lemma_since_all(rows, row.updated_at);
        } else {
            assert(by_age(rows.drop_last())) by {
                let front = rows.drop_last();
                assert forall|i: int, j: int| 0 <= i <= j < front.len() implies (
                #[trigger] front[i]).updated_at >= (#[trigger] front[j]).updated_at by {
                    assert(front[i] == rows[i] && front[j] == rows[j]);
                }
            }
            lemma_place_is_since(rows.drop_last(), row);
        }
    }
}

proof fn lemma_ahead_of_later_row(rows: Seq<RowView>, second: u64, index: int)
    requires
        index >= rows.len(),
    ensures
        ahead_of(rows, second, index) == since(rows, second),
    decreases rows.len(),
{
    if rows.len() > 0 {
        lemma_ahead_of_later_row(rows.drop_last(), second, index);
    }
}

proof fn lemma_sorted(rows: Seq<RowView>)
    ensures
        newest_first(rows).len() == rows.len(),
        by_age(newest_first(rows)),
        forall|i: int|
            0 <= i < rows.len() ==> ahead_of(rows, (#[trigger] rows[i]).updated_at, i) < rows.len(),
        forall|i: int|
            0 <= i < rows.len() ==> newest_first(rows)[ahead_of(
                rows,
                (#[trigger] rows[i]).updated_at,
                i,
            ) as int] == rows[i],
    decreases rows.len(),
{
    if rows.len() > 0 {
        let front = rows.drop_last();
        let row = rows.last();
        let sorted = newest_first(front);
        let all = newest_first(rows);
        let p = place(sorted, row);
        lemma_sorted(front);
        lemma_placed(sorted, row);
        lemma_place_is_since(sorted, row);
        lemma_since_sorted(front, row.updated_at);
        assert forall|i: int, j: int| 0 <= i <= j < all.len() implies (
        #[trigger] all[i]).updated_at >= (#[trigger] all[j]).updated_at by {
            if i < p {
                assert(all[i] == sorted[i]);
                assert(sorted[i].updated_at >= sorted[p - 1].updated_at);
            } else if i > p {
                assert(all[i] == sorted[i - 1]);
            }
            if j < p {
                assert(all[j] == sorted[j]);
            } else if j > p {
                assert(all[j] == sorted[j - 1]);
            }
        }
        assert forall|i: int| 0 <= i < rows.len() implies ahead_of(
            rows,
            (#[trigger] rows[i]).updated_at,
            i,
        ) < rows.len() && all[ahead_of(rows, rows[i].updated_at, i) as int] == rows[i] by {
            let second = rows[i].updated_at;
            if i == rows.len() - 1 {
                lemma_ahead_of_later_row(front, second, i);
                assert(ahead_of(rows, second, i) == p);
            } else {
                assert(front[i] == rows[i]);
                let q = ahead_of(front, second, i) as int;
                assert(sorted[q] == rows[i]);
                if row.updated_at > second {
                    if q < p {
                        assert(sorted[q].updated_at >= sorted[p - 1].updated_at);
                    }
                    assert(all[q + 1] == sorted[q]);
                } else {
                    assert(q < p);
                    assert(all[q] == sorted[q]);
                }
            }
        }
    }
}

/// Sorting puts every row exactly where its age says: behind the newer rows and
/// behind the rows of the same second that stood before it.
pub proof fn sorting_is_stable(rows: Seq<RowView>, index: int)
    requires
        0 <= index < rows.len(),
    ensures
        newest_first(rows).len() == rows.len(),
        ahead_of(rows, rows[index].updated_at, index) < rows.len(),
        newest_first(rows)[ahead_of(rows, rows[index].updated_at, index) as int] == rows[index],
{
    lemma_sorted(rows);
}

/// Sorting leaves the rows from the newest to the oldest; none is lost and none
/// is added.
pub proof fn sorting_orders_by_age(rows: Seq<RowView>)
    ensures
        by_age(newest_first(rows)),
        newest_first(rows).to_multiset() == rows.to_multiset(),
    decreases rows.len(),
{
    lemma_sorted(rows);
    if rows.len() > 0 {
        let front = rows.drop_last();
        let row = rows.last();
        let sorted = newest_first(front);
        let p = place(sorted, row);
        sorting_orders_by_age(front);
        lemma_placed(sorted, row);
        vstd::seq_lib::to_multiset_build(front, row);
        vstd::seq_lib::to_multiset_build(sorted.take(p), row);
        vstd::seq_lib::lemma_multiset_commutative(sorted.take(p).push(row), sorted.skip(p));
        vstd::seq_lib::lemma_multiset_commutative(sorted.take(p), sorted.skip(p));
        assert(sorted.take(p) + sorted.skip(p) =~= sorted);
        assert(front.push(row) =~= rows);
        assert(newest_first(rows).to_multiset() =~= sorted.to_multiset().insert(row));
    }
}

/// Pruning keeps recent rows only, and not too many; what it keeps was on the
/// ledger before.
pub proof fn pruning_bounds_the_ledger(rows: Seq<RowView>, now: u64)
    ensures
        pruned(rows, now).len() <= MAX_LEDGER_ROWS,
        forall|row: RowView| #[trigger]
            pruned(rows, now).contains(row) ==> is_fresh(row, now) && rows.contains(row),
{
    let keep = |row: RowView| is_fresh(row, now);
    let fresh = fresh_rows(rows, now);
    rows.lemma_filter_len(keep);
    lemma_sorted(fresh);
    sorting_orders_by_age(fresh);
    assert forall|row: RowView| #[trigger] pruned(rows, now).contains(row) implies is_fresh(
        row,
        now,
    ) && rows.contains(row) by {
        let kept = pruned(rows, now);
        let at = choose|at: int| 0 <= at < kept.len() && kept[at] == row;
        assert(fresh.contains(row)) by {
            if fresh.len() > MAX_LEDGER_ROWS {
                assert(newest_first(fresh)[at] == row);
                broadcast use vstd::seq_lib::group_to_multiset_ensures;
                assert(newest_first(fresh).contains(row));
                assert(newest_first(fresh).to_multiset().count(row) > 0);
            }
        }
        rows.lemma_filter_contains_rev(keep, row);
        let found = choose|i: int| 0 <= i < fresh.len() && fresh[i] == row;
        rows.lemma_filter_pred(keep, found);
    }
}

/// Pruning twice at the same second is pruning once.
pub proof fn pruning_settles(rows: Seq<RowView>, now: u64)
    ensures
        pruned(pruned(rows, now), now) == pruned(rows, now),
{
    pruning_bounds_the_ledger(rows, now);
    let kept = pruned(rows, now);
    assert forall|i: int| 0 <= i < kept.len() implies is_fresh(#[trigger] kept[i], now) by {
        assert(kept.contains(kept[i]));
    }
    a_recent_ledger_is_left_alone(kept, now);
}

/// A ledger that is neither too old nor too long is taken over whole, so that a
/// restart goes on counting where the run before it stopped.
pub proof fn a_recent_ledger_is_left_alone(rows: Seq<RowView>, now: u64)
    requires
        rows.len() <= MAX_LEDGER_ROWS,
        forall|i: int| 0 <= i < rows.len() ==> is_fresh(#[trigger] rows[i], now),
    ensures
        pruned(rows, now) == rows,
{
    lemma_all_fresh(rows, now);
}

proof fn lemma_all_fresh(rows: Seq<RowView>, now: u64)
    requires
        forall|i: int| 0 <= i < rows.len() ==> is_fresh(#[trigger] rows[i], now),
    ensures
        fresh_rows(rows, now) == rows,
    decreases rows.len(),
{
    reveal(Seq::filter);
    if rows.len() > 0 {
        let front = rows.drop_last();
        assert forall|i: int| 0 <= i < front.len() implies is_fresh(#[trigger] front[i], now) by {
            assert(front[i] == rows[i]);
        }
        lemma_all_fresh(front, now);
        assert(is_fresh(rows[rows.len() - 1], now));
        assert(front.push(rows.last()) =~= rows);
    }
}

proof fn lemma_since_fresh(rows: Seq<RowView>, now: u64, second: u64)
    requires
        now - second <= LEDGER_KEEP_SECONDS,
    ensures
        since(fresh_rows(rows, now), second) == since(rows, second),
    decreases rows.len(),
{
    reveal(Seq::filter);
    if rows.len() > 0 {
        let front = rows.drop_last();
        lemma_since_fresh(front, now, second);
        let fresh = fresh_rows(front, now);
        assert(fresh.push(rows.last()).drop_last() =~= fresh);
    }
}

/// Where a recent row stands among the recent rows. As many rows are ahead of it
/// as among all rows, for a row that is ahead is recent too.
proof fn lemma_fresh_index(rows: Seq<RowView>, now: u64, index: int) -> (at: int)
    requires
        0 <= index < rows.len(),
        is_fresh(rows[index], now),
    ensures
        0 <= at < fresh_rows(rows, now).len(),
        fresh_rows(rows, now)[at] == rows[index],
        ahead_of(fresh_rows(rows, now), rows[index].updated_at, at) == ahead_of(
            rows,
            rows[index].updated_at,
            index,
        ),
    decreases rows.len(),
{
    reveal(Seq::filter);
    let front = rows.drop_last();
    let fresh = fresh_rows(front, now);
    let second = rows[index].updated_at;
    assert(fresh.push(rows.last()).drop_last() =~= fresh);
    if index == rows.len() - 1 {
        lemma_ahead_of_later_row(front, second, index);
        lemma_ahead_of_later_row(fresh, second, fresh.len() as int);
        lemma_since_fresh(front, now, second);
        fresh.len() as int
    } else {
        assert(front[index] == rows[index]);
        lemma_fresh_index(front, now, index)
    }
}

/// A recent row stays on the ledger unless as many rows as fit are ahead of it.
pub proof fn pruning_keeps_the_newest(rows: Seq<RowView>, now: u64, index: int)
    requires
        0 <= index < rows.len(),
        is_fresh(rows[index], now),
        ahead_of(rows, rows[index].updated_at, index) < MAX_LEDGER_ROWS,
    ensures
        pruned(rows, now).contains(rows[index]),
{
    let fresh = fresh_rows(rows, now);
    let at = lemma_fresh_index(rows, now, index);
    if fresh.len() > MAX_LEDGER_ROWS {
        sorting_is_stable(fresh, at);
        let rank = ahead_of(fresh, fresh[at].updated_at, at) as int;
        assert(pruned(rows, now)[rank] == rows[index]);
    } else {
        assert(pruned(rows, now)[at] == rows[index]);
    }
}

/// The row about a session, an account and a model before a call is charged to
/// it.
pub open spec fn counters_before(rows: Seq<RowView>, key: UsageKey) -> UsageCounters {
    let at = row_position(rows, key);
    if at < rows.len() {
        rows[at].counters
    } else {
        UsageCounters::none()
    }
}

/// A call is charged to the row about its session, account and model, and to no
/// other row.
pub proof fn a_call_is_charged_to_one_row(
    rows: Seq<RowView>,
    key: UsageKey,
    usage: TokenUsage,
    now: u64,
)
    ensures
        ({
            let at = row_position(rows, key);
            let all = charged(rows, key, usage, now);
            &&& 0 <= at < all.len()
            &&& rows.len() <= all.len() <= rows.len() + 1
            &&& all[at] == (RowView {
                key,
                counters: counters_before(rows, key).after_turn(usage),
                updated_at: now,
            })
            &&& forall|i: int|
                0 <= i < all.len() && i != at ==> i < rows.len() && #[trigger] all[i] == rows[i]
        }),
{
    lemma_row_position_bounds(rows, key);
}

/// What is used without an account in hand, or without a session, is charged to
/// nobody.
pub proof fn nothing_is_charged_without_a_lease(
    ledger: LedgerView,
    session_id: Seq<char>,
    model: Seq<char>,
    usage: TokenUsage,
    now: u64,
)
    requires
        ledger.held is None || session_id.len() == 0,
    ensures
        recorded(ledger, session_id, model, usage, now) == ledger,
{
}

/// What is used is charged to the account in hand alone: every other row is as
/// it was before.
pub proof fn usage_follows_the_account_in_hand(
    ledger: LedgerView,
    account_key: Seq<char>,
    session_id: Seq<char>,
    model: Seq<char>,
    usage: TokenUsage,
    now: u64,
)
    requires
        ledger.held == Some(account_key),
    ensures
        forall|row: RowView| #[trigger]
            recorded(ledger, session_id, model, usage, now).rows.contains(row) ==> {
                ||| ledger.rows.contains(row)
                ||| row == (RowView {
                    key: UsageKey { session_id, account_key, model },
                    counters: counters_before(
                        ledger.rows,
                        UsageKey { session_id, account_key, model },
                    ).after_turn(usage),
                    updated_at: now,
                })
            },
{
    let key = UsageKey { session_id, account_key, model };
    let all = charged(ledger.rows, key, usage, now);
    a_call_is_charged_to_one_row(ledger.rows, key, usage, now);
    pruning_bounds_the_ledger(all, now);
    assert forall|row: RowView| #[trigger]
        recorded(ledger, session_id, model, usage, now).rows.contains(
        row,
    ) && !ledger.rows.contains(row) implies row == all[row_position(ledger.rows, key)] by {
        if session_id.len() > 0 {
            assert(all.contains(row));
            let i = choose|i: int| 0 <= i < all.len() && all[i] == row;
            if i != row_position(ledger.rows, key) {
                assert(ledger.rows[i] == row);
            }
        }
    }
}

/// A call that was charged is on the ledger afterwards, unless as many rows as
/// fit are ahead of its row.
pub proof fn a_charged_call_stays_on_the_ledger(
    ledger: LedgerView,
    account_key: Seq<char>,
    session_id: Seq<char>,
    model: Seq<char>,
    usage: TokenUsage,
    now: u64,
)
    requires
        ledger.held == Some(account_key),
        session_id.len() > 0,
        ({
            let key = UsageKey { session_id, account_key, model };
            ahead_of(
                charged(ledger.rows, key, usage, now),
                now,
                row_position(ledger.rows, key),
            ) < MAX_LEDGER_ROWS
        }),
    ensures
        recorded(ledger, session_id, model, usage, now).rows.contains(
            RowView {
                key: UsageKey { session_id, account_key, model },
                counters: counters_before(
                    ledger.rows,
                    UsageKey { session_id, account_key, model },
                ).after_turn(usage),
                updated_at: now,
            },
        ),
{
    let key = UsageKey { session_id, account_key, model };
    let all = charged(ledger.rows, key, usage, now);
    a_call_is_charged_to_one_row(ledger.rows, key, usage, now);
    pruning_keeps_the_newest(all, now, row_position(ledger.rows, key));
}

proof fn lemma_distinct_sorted(rows: Seq<RowView>)
    requires
        distinct_keys(rows),
    ensures
        distinct_keys(newest_first(rows)),
    decreases rows.len(),
{
    if rows.len() > 0 {
        let front = rows.drop_last();
        let row = rows.last();
        let sorted = newest_first(front);
        let all = newest_first(rows);
        let p = place(sorted, row);
        assert(distinct_keys(front)) by {
            assert forall|i: int, j: int| 0 <= i < j < front.len() implies (
            #[trigger] front[i]).key != (#[trigger] front[j]).key by {
                assert(front[i] == rows[i] && front[j] == rows[j]);
            }
        }
        lemma_distinct_sorted(front);
        lemma_placed(sorted, row);
        sorting_orders_by_age(front);
        assert forall|i: int| 0 <= i < sorted.len() implies (#[trigger] sorted[i]).key
            != row.key by {
            broadcast use vstd::seq_lib::group_to_multiset_ensures;

            assert(sorted.contains(sorted[i]));
            assert(sorted.to_multiset().count(sorted[i]) > 0);
            assert(front.contains(sorted[i]));
            let j = choose|j: int| 0 <= j < front.len() && front[j] == sorted[i];
            assert(rows[j] == sorted[i]);
            assert(rows[j].key != rows[rows.len() - 1].key);
        }
        assert forall|i: int, j: int| 0 <= i < j < all.len() implies (#[trigger] all[i]).key != (
        #[trigger] all[j]).key by {
            let before = |k: int|
                if k < p {
                    k
                } else {
                    k - 1
                };
            if i != p {
                assert(all[i] == sorted[before(i)]);
            }
            if j != p {
                assert(all[j] == sorted[before(j)]);
            }
        }
    }
}

proof fn lemma_distinct_fresh(rows: Seq<RowView>, now: u64)
    requires
        distinct_keys(rows),
    ensures
        distinct_keys(fresh_rows(rows, now)),
    decreases rows.len(),
{
    reveal(Seq::filter);
    if rows.len() > 0 {
        let front = rows.drop_last();
        let keep = |row: RowView| is_fresh(row, now);
        assert(distinct_keys(front)) by {
            assert forall|i: int, j: int| 0 <= i < j < front.len() implies (
            #[trigger] front[i]).key != (#[trigger] front[j]).key by {
                assert(front[i] == rows[i] && front[j] == rows[j]);
            }
        }
        lemma_distinct_fresh(front, now);
        let fresh = fresh_rows(front, now);
        assert forall|i: int| 0 <= i < fresh.len() implies (#[trigger] fresh[i]).key
            != rows.last().key by {
            assert(fresh.contains(fresh[i]));
            front.lemma_filter_contains_rev(keep, fresh[i]);
            let j = choose|j: int| 0 <= j < front.len() && front[j] == fresh[i];
            assert(rows[j] == fresh[i]);
            assert(rows[j].key != rows[rows.len() - 1].key);
        }
    }
}

/// Pruning keeps one row at most for each session, account and model.
pub proof fn pruning_keeps_keys_distinct(rows: Seq<RowView>, now: u64)
    requires
        distinct_keys(rows),
    ensures
        distinct_keys(pruned(rows, now)),
{
    let fresh = fresh_rows(rows, now);
    lemma_distinct_fresh(rows, now);
    lemma_distinct_sorted(fresh);
    lemma_sorted(fresh);
}

/// Recording keeps one row at most for each session, account and model, and a
/// ledger that is not too long.
pub proof fn recording_keeps_keys_distinct(
    ledger: LedgerView,
    session_id: Seq<char>,
    model: Seq<char>,
    usage: TokenUsage,
    now: u64,
)
    requires
        distinct_keys(ledger.rows),
    ensures
        distinct_keys(recorded(ledger, session_id, model, usage, now).rows),
        ledger.rows.len() <= MAX_LEDGER_ROWS ==> recorded(
            ledger,
            session_id,
            model,
            usage,
            now,
        ).rows.len() <= MAX_LEDGER_ROWS,
{
    if let Some(account_key) = ledger.held {
        let key = UsageKey { session_id, account_key, model };
        let all = charged(ledger.rows, key, usage, now);
        a_call_is_charged_to_one_row(ledger.rows, key, usage, now);
        lemma_row_position_bounds(ledger.rows, key);
        assert forall|i: int, j: int| 0 <= i < j < all.len() implies (#[trigger] all[i]).key != (
        #[trigger] all[j]).key by {
            let at = row_position(ledger.rows, key);
            if at < ledger.rows.len() {
                assert(all[i].key == ledger.rows[i].key);
                assert(all[j].key == ledger.rows[j].key);
            } else {
                assert(all[i] == ledger.rows[i]);
            }
        }
        pruning_keeps_keys_distinct(all, now);
        pruning_bounds_the_ledger(all, now);
    }
}

/// Recording never lowers a count: what is reported of a session, an account and
/// a model only grows while its row is on the ledger.
pub proof fn recording_never_lowers_a_count(
    ledger: LedgerView,
    session_id: Seq<char>,
    model: Seq<char>,
    usage: TokenUsage,
    now: u64,
    before: RowView,
    after: RowView,
)
    requires
        distinct_keys(ledger.rows),
        ledger.rows.contains(before),
        recorded(ledger, session_id, model, usage, now).rows.contains(after),
        before.key == after.key,
    ensures
        after.counters.at_least(before.counters),
{
    let p = choose|p: int| 0 <= p < ledger.rows.len() && ledger.rows[p] == before;
    if let Some(account_key) = ledger.held {
        let key = UsageKey { session_id, account_key, model };
        let at = row_position(ledger.rows, key);
        usage_follows_the_account_in_hand(ledger, account_key, session_id, model, usage, now);
        lemma_row_position_bounds(ledger.rows, key);
        counters_only_grow(counters_before(ledger.rows, key), usage);
        if ledger.rows.contains(after) {
            let q = choose|q: int| 0 <= q < ledger.rows.len() && ledger.rows[q] == after;
            assert(p == q);
        } else {
            assert(at <= p);
            assert(at == p);
        }
    } else {
        let q = choose|q: int| 0 <= q < ledger.rows.len() && ledger.rows[q] == after;
        assert(p == q);
    }
}

/// Neither usage nor a change of directory touches a refusal that the pool has
/// not been told of, or the account in hand.
pub proof fn a_refusal_outlives_other_news(
    ledger: LedgerView,
    session_id: Seq<char>,
    model: Seq<char>,
    usage: TokenUsage,
    now: u64,
    cwd: Seq<char>,
)
    ensures
        recorded(ledger, session_id, model, usage, now).refusal == ledger.refusal,
        recorded(ledger, session_id, model, usage, now).held == ledger.held,
        recorded(ledger, session_id, model, usage, now).held_email == ledger.held_email,
        recorded(ledger, session_id, model, usage, now).cwd == ledger.cwd,
        working_in(ledger, cwd).refusal == ledger.refusal,
        working_in(ledger, cwd).held == ledger.held,
        working_in(ledger, cwd).held_email == ledger.held_email,
        working_in(ledger, cwd).rows == ledger.rows,
{
}

/// A later reason replaces an earlier one, a blank reason changes nothing, and
/// nothing but the reason changes.
pub proof fn the_last_reason_counts(ledger: LedgerView, first: Seq<char>, second: Seq<char>)
    ensures
        trimmed(second).len() > 0 ==> refused(refused(ledger, first), second) == refused(
            ledger,
            second,
        ),
        trimmed(second).len() == 0 ==> refused(ledger, second) == ledger,
        refused(ledger, first).rows == ledger.rows,
        refused(ledger, first).held == ledger.held,
        refused(ledger, first).held_email == ledger.held_email,
        refused(ledger, first).cwd == ledger.cwd,
{
}

/// A reason that is kept is never blank and never long, and begins where the
/// reported one begins.
pub proof fn a_kept_reason_is_short(ledger: LedgerView, reason: Seq<char>)
    requires
        trimmed(reason).len() > 0,
    ensures
        refused(ledger, reason).refusal matches Some(kept) && {
            &&& 0 < kept.len() <= MAX_REASON_CHARS
            &&& kept == trimmed(reason).take(kept.len() as int)
            &&& trimmed(reason).len() <= MAX_REASON_CHARS ==> kept == trimmed(reason)
        },
{
    let text = trimmed(reason);
    assert(text.take(text.len() as int) =~= text);
}

/// A directory that is noted replaces the one before it; noting it again changes
/// nothing.
pub proof fn the_last_directory_counts(ledger: LedgerView, first: Seq<char>, second: Seq<char>)
    ensures
        trimmed(second).len() > 0 ==> working_in(working_in(ledger, first), second) == working_in(
            ledger,
            second,
        ),
        working_in(working_in(ledger, first), first) == working_in(ledger, first),
        trimmed(second).len() == 0 ==> working_in(ledger, second) == ledger,
{
}

/// A report has one line for each row, and its lines tell the rows apart.
pub proof fn a_report_names_every_row(rows: Seq<RowView>)
    ensures
        report(rows).len() == rows.len(),
        forall|i: int|
            0 <= i < rows.len() ==> (#[trigger] report(rows)[i]).counters == rows[i].counters
                && report(rows)[i].account_key == Some(rows[i].key.account_key)
                && report(rows)[i].session_id == rows[i].key.session_id
                && report(rows)[i].counter_version == USAGE_COUNTER_VERSION,
        forall|i: int, j: int|
            0 <= i < rows.len() && 0 <= j < rows.len() && rows[i].key != rows[j].key
                ==> #[trigger] report(rows)[i] != #[trigger] report(rows)[j],
{
    assert forall|i: int, j: int|
        0 <= i < rows.len() && 0 <= j < rows.len() && rows[i].key != rows[j].key implies (
    #[trigger] report(rows)[i]) != (#[trigger] report(rows)[j]) by {
        let a = rows[i].key;
        let b = rows[j].key;
        if report_line(rows[i]) == report_line(rows[j]) {
            if a.model.len() == 0 {
                assert(a.model =~= b.model);
            }
            assert(a == b);
        }
    }
}

/// Whether a counter grew by exactly its own count of a call: a negative count
/// adds nothing, and the counter stops at its largest value.
pub open spec fn grows_by(before: u64, count: int, after: u64) -> bool {
    &&& count <= 0 ==> after == before
    &&& count > 0 && before + count <= u64::MAX ==> after == before + count
    &&& count > 0 && before + count > u64::MAX ==> after == u64::MAX
}

/// Each counter grows by exactly its own count of the call, and the requests by
/// one.
pub proof fn each_counter_grows_by_its_own_count(counters: UsageCounters, usage: TokenUsage)
    ensures
        ({
            let after = counters.after_turn(usage);
            &&& grows_by(counters.requests, 1, after.requests)
            &&& grows_by(counters.input_tokens, usage.input_tokens as int, after.input_tokens)
            &&& grows_by(
                counters.cached_input_tokens,
                usage.cached_input_tokens as int,
                after.cached_input_tokens,
            )
            &&& grows_by(counters.output_tokens, usage.output_tokens as int, after.output_tokens)
            &&& grows_by(
                counters.reasoning_tokens,
                usage.reasoning_output_tokens as int,
                after.reasoning_tokens,
            )
            &&& grows_by(counters.total_tokens, usage.total_tokens as int, after.total_tokens)
        }),
{
}

/// It does not matter in which order two calls are counted.
pub proof fn calls_are_counted_in_any_order(
    counters: UsageCounters,
    first: TokenUsage,
    second: TokenUsage,
)
    ensures
        counters.after_turn(first).after_turn(second) == counters.after_turn(second).after_turn(
            first,
        ),
{
}

/// No counter is ever below what it was.
pub proof fn no_counter_falls(counters: UsageCounters, usage: TokenUsage)
    ensures
        ({
            let after = counters.after_turn(usage);
            &&& after.requests >= counters.requests
            &&& after.input_tokens >= counters.input_tokens
            &&& after.cached_input_tokens >= counters.cached_input_tokens
            &&& after.output_tokens >= counters.output_tokens
            &&& after.reasoning_tokens >= counters.reasoning_tokens
            &&& after.total_tokens >= counters.total_tokens
        }),
        counters.at_least(counters),
        UsageCounters::none() == (UsageCounters {
            requests: 0,
            input_tokens: 0,
            cached_input_tokens: 0,
            output_tokens: 0,
            reasoning_tokens: 0,
            total_tokens: 0,
        }),
{
}

/// A row is looked up by session, account and model, and the first one counts.
pub proof fn the_first_row_about_a_key_counts(rows: Seq<RowView>, key: UsageKey)
    ensures
        0 <= row_position(rows, key) <= rows.len(),
        row_position(rows, key) < rows.len() ==> rows[row_position(rows, key)].key == key,
        forall|i: int| 0 <= i < row_position(rows, key) ==> (#[trigger] rows[i]).key != key,
        row_position(rows, key) < rows.len() ==> with_row(rows, key) == rows,
        row_position(rows, key) == rows.len() ==> with_row(rows, key) == rows.push(
            RowView {
                key,
                counters: UsageCounters {
                    requests: 0,
                    input_tokens: 0,
                    cached_input_tokens: 0,
                    output_tokens: 0,
                    reasoning_tokens: 0,
                    total_tokens: 0,
                },
                updated_at: 0,
            },
        ),
{
    lemma_row_position_bounds(rows, key);
}

/// A call adds a row exactly where there was none about its key, and stands in
/// the row with the counts of that row alone.
pub proof fn a_call_adds_at_most_its_own_row(
    rows: Seq<RowView>,
    key: UsageKey,
    usage: TokenUsage,
    now: u64,
)
    ensures
        ({
            let at = row_position(rows, key);
            let all = charged(rows, key, usage, now);
            &&& at < rows.len() ==> all.len() == rows.len() && all[at].counters
                == rows[at].counters.after_turn(usage)
            &&& at == rows.len() ==> all.len() == rows.len() + 1 && all[at].counters
                == UsageCounters::none().after_turn(usage)
            &&& all[at].key == key
            &&& all[at].updated_at == now
            &&& forall|i: int|
                0 <= i < rows.len() && i != at ==> #[trigger] all[i] == rows[i]
        }),
{
    lemma_row_position_bounds(rows, key);
}

/// The rows that were touched in the last six hours, in their order.
pub open spec fn touched_lately(rows: Seq<RowView>, now: u64) -> Seq<RowView> {
    rows.filter(|row: RowView| row.updated_at + 21_600 >= now)
}

/// A row is recent for six hours after it was last touched, and recent rows keep
/// their order.
pub proof fn a_row_is_recent_for_six_hours(rows: Seq<RowView>, now: u64)
    ensures
        forall|row: RowView| #[trigger]
            is_fresh(row, now) <==> row.updated_at + 21_600 >= now,
        fresh_rows(rows, now) == touched_lately(rows, now),
    decreases rows.len(),
{
    reveal(Seq::filter);
    if rows.len() > 0 {
        a_row_is_recent_for_six_hours(rows.drop_last(), now);
    }
}

/// Up to five hundred recent rows stay as they are. Of more, exactly the five
/// hundred stay that have fewer than five hundred ahead of them, each at the
/// place that its age gives it.
pub proof fn a_long_ledger_is_cut_to_its_newest_rows(rows: Seq<RowView>, now: u64)
    ensures
        ({
            let fresh = touched_lately(rows, now);
            let kept = pruned(rows, now);
            &&& fresh.len() <= 500 ==> kept == fresh
            &&& fresh.len() > 500 ==> kept.len() == 500 && by_age(kept) && forall|i: int|
                0 <= i < fresh.len() && ahead_of(fresh, (#[trigger] fresh[i]).updated_at, i) < 500
                    ==> kept[ahead_of(fresh, fresh[i].updated_at, i) as int] == fresh[i]
        }),
{
    a_row_is_recent_for_six_hours(rows, now);
    lemma_sorted(touched_lately(rows, now));
}

/// Recording a call changes the rows alone: the call is charged to the account in
/// hand, then the ledger is pruned.
pub proof fn recording_charges_and_prunes(
    ledger: LedgerView,
    account_key: Seq<char>,
    session_id: Seq<char>,
    model: Seq<char>,
    usage: TokenUsage,
    now: u64,
)
    requires
        ledger.held == Some(account_key),
        session_id.len() > 0,
    ensures
        recorded(ledger, session_id, model, usage, now) == (LedgerView {
            rows: pruned(
                charged(ledger.rows, UsageKey { session_id, account_key, model }, usage, now),
                now,
            ),
            ..ledger
        }),
{
}

/// The first sixty-four characters of a reason are kept, and the whole of a
/// shorter one.
pub proof fn a_reason_is_kept_up_to_its_limit(ledger: LedgerView, reason: Seq<char>)
    requires
        trimmed(reason).len() > 0,
    ensures
        refused(ledger, reason).refusal matches Some(kept) && {
            &&& trimmed(reason).len() <= 64 ==> kept == trimmed(reason)
            &&& trimmed(reason).len() > 64 ==> kept == trimmed(reason).take(64)
        },
        refused(ledger, reason) == (LedgerView {
            refusal: refused(ledger, reason).refusal,
            ..ledger
        }),
{
}

/// A directory that is not blank is noted without the white space around it, and
/// nothing else changes.
pub proof fn a_directory_is_noted_trimmed(ledger: LedgerView, cwd: Seq<char>)
    requires
        trimmed(cwd).len() > 0,
    ensures
        working_in(ledger, cwd) == (LedgerView { cwd: Some(trimmed(cwd)), ..ledger }),
{
}

/// A report line says of its row what the row holds, and names a model only
/// where there is one.
pub proof fn a_report_line_says_what_the_row_holds(row: RowView)
    ensures
        ({
            let line = report_line(row);
            &&& line.session_id == row.key.session_id
            &&& line.counter_version == 3
            &&& line.account_key == Some(row.key.account_key)
            &&& row.key.model.len() == 0 ==> line.model is None
            &&& row.key.model.len() > 0 ==> line.model == Some(row.key.model)
            &&& line.counters == row.counters
        }),
        forall|rows: Seq<RowView>, i: int|
            0 <= i < rows.len() ==> #[trigger] report(rows)[i] == report_line(rows[i]),
{
}

} // verus!
