//! The revenue record of one creator: lifetime earnings, lifetime
//! withdrawals, and a bounded history of revenue entries. The record's
//! invariant — withdrawals never exceed earnings — is established at
//! initialization and preserved by every operation; the available
//! balance is the difference of the two totals.

use vstd::prelude::*;
use vstd::string::StrSliceExecFns;
use crate::addr::Addr;

verus! {

/// One credited revenue event.
#[derive(Clone, Debug)]
pub struct RevenueEntry {
    pub match_id: String,
    pub amount: u64,
    pub timestamp: i64,
}

/// Revenue bookkeeping for one creator.
#[derive(Clone, Debug)]
pub struct CreatorRevenue {
    pub creator: Addr,
    pub nft_mint: Addr,
    pub total_earned: u64,
    pub total_withdrawn: u64,
    pub last_withdrawal_timestamp: i64,
    pub revenue_history: Vec<RevenueEntry>,
}

#[derive(Clone, Copy, PartialEq, Eq, Structural, Debug)]
pub enum RevenueError {
    /// The withdrawal exceeds the available balance.
    InsufficientFunds,
    /// Crediting this amount would overflow the earned total.
    Overflow,
    /// The revenue history already holds the maximum of 50 entries.
    HistoryFull,
    /// The match identifier is longer than 50 characters.
    InvalidMatchId,
}

/// The balance still available for withdrawal: earnings minus
/// withdrawals, floored at zero.
pub open spec fn available_spec(c: CreatorRevenue) -> int {
    if c.total_withdrawn <= c.total_earned {
        c.total_earned - c.total_withdrawn
    } else {
        0
    }
}

/// The decision of `add_revenue` over the record and its arguments.
pub open spec fn add_revenue_result(c: CreatorRevenue, match_id: String, amount: u64) -> Result<
    (),
    RevenueError,
> {
    if match_id@.len() > 50 {
        Err(RevenueError::InvalidMatchId)
    } else if c.total_earned + amount > u64::MAX {
        Err(RevenueError::Overflow)
    } else if c.revenue_history@.len() >= 50 {
        Err(RevenueError::HistoryFull)
    } else {
        Ok(())
    }
}

/// A successful `add_revenue` turned `c` into `d`: the amount is added
/// to the earned total, one history entry is appended, and everything
/// else is untouched.
pub open spec fn added_revenue(
    c: CreatorRevenue,
    d: CreatorRevenue,
    match_id: String,
    amount: u64,
    now: i64,
) -> bool {
    &&& d.total_earned == c.total_earned + amount
    &&& d.revenue_history@ == c.revenue_history@.push(
        RevenueEntry { match_id, amount, timestamp: now },
    )
    &&& d.creator == c.creator
    &&& d.nft_mint == c.nft_mint
    &&& d.total_withdrawn == c.total_withdrawn
    &&& d.last_withdrawal_timestamp == c.last_withdrawal_timestamp
}

/// The decision of `withdraw_revenue` over the record and the amount.
pub open spec fn withdraw_result(c: CreatorRevenue, amount: u64) -> Result<(), RevenueError> {
    if amount <= available_spec(c) {
        Ok(())
    } else {
        Err(RevenueError::InsufficientFunds)
    }
}

/// A successful `withdraw_revenue` turned `c` into `d`: the amount is
/// added to the withdrawn total, the withdrawal time is stamped, and
/// everything else is untouched.
pub open spec fn withdrew_revenue(c: CreatorRevenue, d: CreatorRevenue, amount: u64, now: i64) -> bool {
    &&& d.total_withdrawn == c.total_withdrawn + amount
    &&& d.last_withdrawal_timestamp == now
    &&& d.creator == c.creator
    &&& d.nft_mint == c.nft_mint
    &&& d.total_earned == c.total_earned
    &&& d.revenue_history == c.revenue_history
}

impl CreatorRevenue {
    /// Record well-formedness: withdrawals never exceed earnings, and
    /// the history is bounded at 50 entries with bounded identifiers.
    pub open spec fn wf(self) -> bool {
        &&& self.total_withdrawn <= self.total_earned
        &&& self.revenue_history@.len() <= 50
        &&& forall|i: int|
            0 <= i < self.revenue_history@.len() ==> (
            #[trigger] self.revenue_history@[i]).match_id@.len() <= 50
    }

    /// First write of the record: both parties stored, totals zeroed,
    /// history emptied.
    pub fn initialize(&mut self, creator: Addr, nft_mint: Addr) -> (r: Result<(), RevenueError>)
        ensures
            r is Ok,
            final(self).creator == creator,
            final(self).nft_mint == nft_mint,
            final(self).total_earned == 0u64,
            final(self).total_withdrawn == 0u64,
            final(self).last_withdrawal_timestamp == 0i64,
            final(self).revenue_history@ == Seq::<RevenueEntry>::empty(),
            final(self).wf(),
    {
        self.creator = creator;
        self.nft_mint = nft_mint;
        self.total_earned = 0;
        self.total_withdrawn = 0;
        self.last_withdrawal_timestamp = 0;
        self.revenue_history = Vec::new();
        Ok(())
    }

    /// Credit revenue: add to the earned total and append one history
    /// entry. Rejects an over-long match identifier, an overflowing
    /// amount, and a full history; the record is unchanged on any
    /// rejection.
    pub fn add_revenue(&mut self, match_id: String, amount: u64, now: i64) -> (r: Result<
        (),
        RevenueError,
    >)
        ensures
            r == add_revenue_result(*old(self), match_id, amount),
            r is Ok ==> added_revenue(*old(self), *final(self), match_id, amount, now),
            r is Err ==> *final(self) == *old(self),
            old(self).wf() ==> final(self).wf(),
    {
        if match_id.as_str().unicode_len() > 50 {
            return Err(RevenueError::InvalidMatchId);
        }
        let total = match self.total_earned.checked_add(amount) {
            Some(total) => total,
            None => {
                return Err(RevenueError::Overflow);
            },
        };
        if self.revenue_history.len() >= 50 {
            return Err(RevenueError::HistoryFull);
        }
        self.total_earned = total;
        self.revenue_history.push(RevenueEntry { match_id, amount, timestamp: now });
        Ok(())
    }

    /// Withdraw from the available balance. Rejects an amount above
    /// the balance, leaving both totals unchanged; on success the
    /// withdrawn total grows by exactly the amount and the withdrawal
    /// time is stamped.
    pub fn withdraw_revenue(&mut self, amount: u64, now: i64) -> (r: Result<(), RevenueError>)
        ensures
            r == withdraw_result(*old(self), amount),
            r is Ok ==> withdrew_revenue(*old(self), *final(self), amount, now),
            r is Err ==> *final(self) == *old(self),
            old(self).wf() ==> final(self).wf(),
    {
        let available = if self.total_withdrawn <= self.total_earned {
            self.total_earned - self.total_withdrawn
        } else {
            0
        };
        if amount > available {
            return Err(RevenueError::InsufficientFunds);
        }
        self.total_withdrawn = self.total_withdrawn + amount;
        self.last_withdrawal_timestamp = now;
        Ok(())
    }

    /// The balance still available for withdrawal: earnings minus
    /// withdrawals, floored at zero.
    pub fn get_available_revenue(&self) -> (r: u64)
        ensures
            r == available_spec(*self),
    {
        if self.total_withdrawn <= self.total_earned {
            self.total_earned - self.total_withdrawn
        } else {
            0
        }
    }
}

/// Withdrawing the whole positive available balance succeeds, leaves
/// the record well-formed with nothing further available, and an
/// identical second withdrawal is refused.
pub proof fn lemma_withdraw_all_then_refused(c: CreatorRevenue, d: CreatorRevenue, amount: u64, now: i64)
    requires
        c.wf(),
        amount == available_spec(c),
        amount > 0,
        withdrew_revenue(c, d, amount, now),
    ensures
        withdraw_result(c, amount) is Ok,
        d.total_withdrawn <= d.total_earned,
        available_spec(d) == 0,
        withdraw_result(d, amount) == Err::<(), RevenueError>(RevenueError::InsufficientFunds),
{
}

} // verus!
