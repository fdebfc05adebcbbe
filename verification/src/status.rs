//! Whether the pool can hand out accounts at the moment.
//!
//! An empty pool is the one state that needs a person: scheduling can spread
//! load but cannot make quota. It is announced once and then waited out.

use vstd::prelude::*;

verus! {

/// Whether the pool is out of accounts, and whether that was announced.
#[derive(Clone, Copy, Debug, PartialEq, Eq, Structural)]
pub struct PoolStatus {
    /// The pool said that it has no account to hand out.
    pub exhausted: bool,
    /// The current shortage was announced.
    pub announced: bool,
}

impl PoolStatus {
    /// Only a shortage is ever announced.
    pub open spec fn well_formed(self) -> bool {
        self.announced ==> self.exhausted
    }

    /// The status of a process that has not heard of a shortage.
    pub open spec fn calm() -> PoolStatus {
        PoolStatus { exhausted: false, announced: false }
    }

    /// The status once the pool said that it is out of accounts.
    pub open spec fn when_exhausted(self) -> PoolStatus {
        PoolStatus { exhausted: true, ..self }
    }

    /// The status once the pool handed out an account.
    pub open spec fn when_serving(self) -> PoolStatus {
        if self.exhausted {
            PoolStatus::calm()
        } else {
            self
        }
    }

    /// Whether the current shortage is still to be announced.
    pub open spec fn notice_due(self) -> bool {
        self.exhausted && !self.announced
    }

    /// The status once the announcement was asked for.
    pub open spec fn when_asked(self) -> PoolStatus {
        PoolStatus { announced: self.announced || self.exhausted, ..self }
    }

    /// The status of a process that has not heard of a shortage.
    pub fn new() -> (r: Self)
        ensures
            r == PoolStatus::calm(),
            r.well_formed(),
    {
        PoolStatus { exhausted: false, announced: false }
    }
}

/// Whether the pool is out of accounts.
pub fn pool_is_exhausted(status: &PoolStatus) -> (r: bool)
    ensures
        r == status.exhausted,
{
    status.exhausted
}

/// True if the current shortage was not announced yet, which it then is.
pub fn take_pool_exhaustion_notice(status: &mut PoolStatus) -> (r: bool)
    ensures
        r == old(status).notice_due(),
        *final(status) == old(status).when_asked(),
        old(status).well_formed() ==> final(status).well_formed(),
{
    if status.exhausted && !status.announced {
        status.announced = true;
        true
    } else {
        false
    }
}

/// The pool said that it is out of accounts. True if that is news.
pub fn mark_pool_exhausted(status: &mut PoolStatus) -> (news: bool)
    ensures
        news == !old(status).exhausted,
        *final(status) == old(status).when_exhausted(),
        old(status).well_formed() ==> final(status).well_formed(),
{
    let news = !status.exhausted;
    status.exhausted = true;
    news
}

/// The pool handed out an account. True if that ends a shortage; the next
/// shortage will be announced again.
pub fn mark_pool_serving(status: &mut PoolStatus) -> (news: bool)
    ensures
        news == old(status).exhausted,
        *final(status) == old(status).when_serving(),
        old(status).well_formed() ==> final(status).well_formed(),
{
    let news = status.exhausted;
    if news {
        status.exhausted = false;
        status.announced = false;
    }
    news
}

} // verus!
