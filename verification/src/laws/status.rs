//! What holds of the pool's status across operations.

use crate::status::PoolStatus;
use vstd::prelude::*;

verus! {

/// A shortage is announced once: whoever asks after the announcement is told
/// nothing, however often the pool repeats that it is out of accounts.
pub proof fn a_shortage_is_announced_once(status: PoolStatus)
    requires
        status.exhausted,
    ensures
        !status.when_asked().notice_due(),
        !status.when_asked().when_exhausted().notice_due(),
        status.when_asked().when_asked() == status.when_asked(),
        status.when_asked().exhausted,
{
}

/// After the pool served again, the next shortage is announced anew.
pub proof fn the_next_shortage_is_announced_anew(status: PoolStatus)
    requires
        status.well_formed(),
    ensures
        !status.when_serving().exhausted,
        !status.when_serving().notice_due(),
        status.when_serving().when_exhausted().notice_due(),
{
}

/// Without a shortage there is nothing to announce, and asking changes nothing.
pub proof fn no_shortage_no_notice(status: PoolStatus)
    requires
        !status.exhausted,
    ensures
        !status.notice_due(),
        status.when_asked() == status,
        status.when_serving() == status,
{
}

/// Only a shortage is ever announced, whatever happens.
pub proof fn only_a_shortage_is_announced(status: PoolStatus)
    requires
        status.well_formed(),
    ensures
        PoolStatus::calm().well_formed(),
        status.when_exhausted().well_formed(),
        status.when_serving().well_formed(),
        status.when_asked().well_formed(),
{
}

/// Each event moves each mark as it should, and no other.
pub proof fn each_event_moves_its_own_mark(status: PoolStatus)
    ensures
        status.when_exhausted().exhausted,
        status.when_exhausted().announced == status.announced,
        status.when_asked().exhausted == status.exhausted,
        status.when_asked().announced == (status.announced || status.exhausted),
        !status.when_serving().exhausted,
        status.when_serving().announced == (status.announced && !status.exhausted),
        status.notice_due() == (status.exhausted && !status.announced),
        !PoolStatus::calm().exhausted && !PoolStatus::calm().announced,
        status.well_formed() == (status.exhausted || !status.announced),
{
}

} // verus!
