//! The revenue system: splitting match fees between the platform and
//! the creators, and paying out a creator's withdrawal. The fee split
//! gives the creators 60 percent (floored), the platform the rest;
//! an equal floored share of the creator pool goes to each supplied
//! creator record, and any remainder of the floor divisions stays
//! with the platform implicitly.

use vstd::prelude::*;
use vstd::string::StrSliceExecFns;
use crate::addr::Addr;
use crate::creator_revenue;
use crate::creator_revenue::{CreatorRevenue, RevenueError};

verus! {

/// One decoded revenue-system request.
#[derive(Clone, Debug)]
pub enum RevenueAction {
    DistributeMatchRevenue { match_id: String, total_fees: u64 },
    WithdrawCreatorRevenue { amount: u64 },
}

#[derive(Clone, Copy, PartialEq, Eq, Structural, Debug)]
pub enum SystemError {
    /// The request payload could not be decoded, or a record it needs
    /// was not supplied.
    InvalidArgs,
    /// The request named no known action.
    UnknownAction,
    /// The caller is not the creator of the revenue record.
    NotAuthorized,
    /// A record refused the mutation.
    Component(RevenueError),
}

/// The records one revenue-system call declares: one creator record
/// for a withdrawal, a list of creator records for a distribution;
/// either may be absent.
pub struct Components {
    pub creator_revenue: Option<CreatorRevenue>,
    pub creator_revenues: Option<Vec<CreatorRevenue>>,
}

/// The creators' pool: 60 percent of the fees, floored.
pub open spec fn creator_share_spec(total_fees: u64) -> int {
    (total_fees * 60) / 100
}

/// The platform's share: whatever the creators' pool leaves.
pub open spec fn platform_share_spec(total_fees: u64) -> int {
    total_fees - creator_share_spec(total_fees)
}

/// Each creator's cut: an equal floored share of the pool, zero when
/// no creator is supplied.
pub open spec fn per_creator_spec(total_fees: u64, n_creators: int) -> int {
    if n_creators <= 0 {
        0
    } else {
        creator_share_spec(total_fees) / n_creators
    }
}

/// The creators' pool never exceeds the fees it is cut from.
pub proof fn lemma_creator_share_le_fees(total_fees: u64)
    ensures
        0 <= creator_share_spec(total_fees) <= total_fees,
        0 <= per_creator_spec(total_fees, 1) <= creator_share_spec(total_fees),
{
    assert((total_fees * 60) / 100 <= total_fees && 0 <= (total_fees * 60) / 100) by (nonlinear_arith);
}

/// The split conserves the fees: the creators' pool and the platform
/// share sum back to exactly what was collected.
pub proof fn lemma_split_conserves_fees(total_fees: u64)
    ensures
        creator_share_spec(total_fees) + platform_share_spec(total_fees) == total_fees,
{
    lemma_creator_share_le_fees(total_fees);
}

/// The floored equal split hands out at most the creators' pool: the
/// remainder of the division stays with the platform implicitly.
pub proof fn lemma_split_remainder(total_fees: u64, n_creators: u64)
    requires
        n_creators > 0,
    ensures
        per_creator_spec(total_fees, n_creators as int) * n_creators <= creator_share_spec(
            total_fees,
        ),
{
    lemma_creator_share_le_fees(total_fees);
    let share = creator_share_spec(total_fees);
    let n = n_creators as int;
    assert((share / n) * n <= share) by (nonlinear_arith)
        requires
            share >= 0,
            n > 0,
    ;
}

/// Split the fees of one match among the platform and `n_creators`
/// creators, returning (creators' pool, each creator's cut, platform
/// share).
pub fn compute_revenue_split(total_fees: u64, n_creators: u64) -> (r: (u64, u64, u64))
    ensures
        r.0 == creator_share_spec(total_fees),
        r.1 == per_creator_spec(total_fees, n_creators as int),
        r.2 == platform_share_spec(total_fees),
{
    let share_wide: u128 = (total_fees as u128) * 60 / 100;
    proof {
        lemma_creator_share_le_fees(total_fees);
    }
    let creator_share = share_wide as u64;
    let platform_share = total_fees - creator_share;
    let per_creator = if n_creators == 0 {
        0
    } else {
        creator_share / n_creators
    };
    (creator_share, per_creator, platform_share)
}

/// The decision of crediting each of `cs` with `per`: a bounded match
/// identifier, no earned total overflowing, no history full.
pub open spec fn credit_result(cs: Seq<CreatorRevenue>, match_id: String, per: u64) -> Result<
    (),
    SystemError,
> {
    if match_id@.len() > 50 {
        Err(SystemError::Component(RevenueError::InvalidMatchId))
    } else if exists|i: int| 0 <= i < cs.len() && (#[trigger] cs[i]).total_earned + per > u64::MAX {
        Err(SystemError::Component(RevenueError::Overflow))
    } else if exists|i: int| 0 <= i < cs.len() && (#[trigger] cs[i]).revenue_history@.len() >= 50 {
        Err(SystemError::Component(RevenueError::HistoryFull))
    } else {
        Ok(())
    }
}

/// Every creator record was credited with `per` under the match
/// identifier.
pub open spec fn credited(
    cs: Seq<CreatorRevenue>,
    ds: Seq<CreatorRevenue>,
    match_id: String,
    per: u64,
    now: i64,
) -> bool {
    &&& ds.len() == cs.len()
    &&& forall|i: int|
        0 <= i < cs.len() ==> creator_revenue::added_revenue(cs[i], ds[i], match_id, per, now)
}

/// Credit each supplied creator record with `per`. All validation
/// precedes the first write, so a refusal leaves every record
/// untouched.
fn credit_creators(creators: &mut Vec<CreatorRevenue>, match_id: String, per: u64, now: i64) -> (r:
    Result<(), SystemError>)
    ensures
        r == credit_result(old(creators)@, match_id, per),
        r is Ok ==> credited(old(creators)@, final(creators)@, match_id, per, now),
        r is Err ==> *final(creators) == *old(creators),
{
    if match_id.as_str().unicode_len() > 50 {
        return Err(SystemError::Component(RevenueError::InvalidMatchId));
    }
    let n = creators.len();
    let mut i: usize = 0;
    while i < n
        invariant
            *creators == *old(creators),
            n == creators@.len(),
            match_id@.len() <= 50,
            i <= n,
            forall|j: int| 0 <= j < i ==> (#[trigger] creators@[j]).total_earned + per <= u64::MAX,
        decreases n - i,
    {
        if creators[i].total_earned > u64::MAX - per {
            return Err(SystemError::Component(RevenueError::Overflow));
        }
        i += 1;
    }
    let mut i: usize = 0;
    while i < n
        invariant
            *creators == *old(creators),
            n == creators@.len(),
            match_id@.len() <= 50,
            i <= n,
            forall|j: int| 0 <= j < n ==> (#[trigger] creators@[j]).total_earned + per <= u64::MAX,
            forall|j: int| 0 <= j < i ==> (#[trigger] creators@[j]).revenue_history@.len() < 50,
        decreases n - i,
    {
        if creators[i].revenue_history.len() >= 50 {
            return Err(SystemError::Component(RevenueError::HistoryFull));
        }
        i += 1;
    }
    let mut i: usize = 0;
    while i < n
        invariant
            n == creators@.len(),
            creators@.len() == old(creators)@.len(),
            match_id@.len() <= 50,
            i <= n,
            forall|j: int| i <= j < n ==> creators@[j] == old(creators)@[j],
            forall|j: int|
                i <= j < n ==> (#[trigger] old(creators)@[j]).total_earned + per <= u64::MAX
                    && old(creators)@[j].revenue_history@.len() < 50,
            forall|j: int|
                0 <= j < i ==> creator_revenue::added_revenue(
                    old(creators)@[j],
                    #[trigger] creators@[j],
                    match_id,
                    per,
                    now,
                ),
        decreases n - i,
    {
        // Validated by the two loops above, so the record cannot
        // refuse.
        let _ = creators[i].add_revenue(match_id.clone(), per, now);
        i += 1;
    }
    Ok(())
}

/// The decision of `distribute_match_revenue`: succeeds outright when
/// no creator record is supplied, otherwise as `credit_result` over
/// each creator's cut.
pub open spec fn distribute_result(c: Components, match_id: String, total_fees: u64) -> Result<
    (),
    SystemError,
> {
    match c.creator_revenues {
        None => Ok(()),
        Some(cs) => {
            if cs@.len() == 0 {
                Ok(())
            } else {
                credit_result(
                    cs@,
                    match_id,
                    per_creator_spec(total_fees, cs@.len() as int) as u64,
                )
            }
        },
    }
}

/// The effect of a successful `distribute_match_revenue`: each
/// supplied creator record credited with its cut; the single creator
/// record is never written by this action.
pub open spec fn distributed(
    c: Components,
    d: Components,
    match_id: String,
    total_fees: u64,
    now: i64,
) -> bool {
    &&& d.creator_revenue == c.creator_revenue
    &&& match c.creator_revenues {
        None => d.creator_revenues is None,
        Some(cs) => {
            if cs@.len() == 0 {
                d.creator_revenues == c.creator_revenues
            } else {
                match d.creator_revenues {
                    Some(ds) => credited(
                        cs@,
                        ds@,
                        match_id,
                        per_creator_spec(total_fees, cs@.len() as int) as u64,
                        now,
                    ),
                    None => false,
                }
            }
        },
    }
}

/// Split the fees of one match and credit each supplied creator
/// record with an equal floored cut of the creators' pool. The
/// platform share is implicit: the fees minus the pool, plus whatever
/// the floor divisions leave.
pub fn distribute_match_revenue(
    components: &mut Components,
    match_id: String,
    total_fees: u64,
    now: i64,
) -> (r: Result<(), SystemError>)
    ensures
        r == distribute_result(*old(components), match_id, total_fees),
        r is Ok ==> distributed(*old(components), *final(components), match_id, total_fees, now),
        r is Err ==> *final(components) == *old(components),
{
    match &mut components.creator_revenues {
        None => Ok(()),
        Some(creators) => {
            if creators.len() == 0 {
                return Ok(());
            }
            let n = creators.len();
            let split = compute_revenue_split(total_fees, n as u64);
            credit_creators(creators, match_id, split.1, now)
        },
    }
}

/// The decision of `withdraw_creator_revenue`: the record must be
/// supplied, the caller must be its creator, and the amount must not
/// exceed the available balance.
pub open spec fn withdraw_creator_result(c: Components, amount: u64, authority: Addr) -> Result<
    (),
    SystemError,
> {
    match c.creator_revenue {
        None => Err(SystemError::InvalidArgs),
        Some(cr) => {
            if cr.creator != authority {
                Err(SystemError::NotAuthorized)
            } else {
                match creator_revenue::withdraw_result(cr, amount) {
                    Ok(u) => Ok(u),
                    Err(e) => Err(SystemError::Component(e)),
                }
            }
        },
    }
}

/// The effect of a successful `withdraw_creator_revenue`: the single
/// creator record pays out the amount; the list of creator records is
/// never written by this action.
pub open spec fn withdrawn_creator(c: Components, d: Components, amount: u64, now: i64) -> bool {
    &&& d.creator_revenues == c.creator_revenues
    &&& match (c.creator_revenue, d.creator_revenue) {
        (Some(cr), Some(dr)) => creator_revenue::withdrew_revenue(cr, dr, amount, now),
        _ => false,
    }
}

/// Pay out a withdrawal to the creator, after checking that the
/// verified caller is the record's creator.
pub fn withdraw_creator_revenue(
    components: &mut Components,
    amount: u64,
    authority: Addr,
    now: i64,
) -> (r: Result<(), SystemError>)
    ensures
        r == withdraw_creator_result(*old(components), amount, authority),
        r is Ok ==> withdrawn_creator(*old(components), *final(components), amount, now),
        r is Err ==> *final(components) == *old(components),
{
    match &mut components.creator_revenue {
        None => Err(SystemError::InvalidArgs),
        Some(cr) => {
            if cr.creator != authority {
                return Err(SystemError::NotAuthorized);
            }
            match cr.withdraw_revenue(amount, now) {
                Ok(()) => Ok(()),
                Err(e) => Err(SystemError::Component(e)),
            }
        },
    }
}

/// The decision of `execute` over the declared records and the
/// decoded action.
pub open spec fn execute_result(c: Components, action: RevenueAction, authority: Addr) -> Result<
    (),
    SystemError,
> {
    match action {
        RevenueAction::DistributeMatchRevenue { match_id, total_fees } => distribute_result(
            c,
            match_id,
            total_fees,
        ),
        RevenueAction::WithdrawCreatorRevenue { amount } => withdraw_creator_result(
            c,
            amount,
            authority,
        ),
    }
}

/// Every supplied creator record is well-formed.
pub open spec fn wf_all(c: Components) -> bool {
    &&& match c.creator_revenue {
        Some(cr) => cr.wf(),
        None => true,
    }
    &&& match c.creator_revenues {
        Some(cs) => forall|i: int| 0 <= i < cs@.len() ==> (#[trigger] cs@[i]).wf(),
        None => true,
    }
}

/// Run one decoded revenue-system request against the declared
/// records, as the verified caller `authority` at time `now`. A
/// refused request reports exactly the error of `execute_result` and
/// leaves every record unchanged; well-formedness of every supplied
/// record is preserved either way.
pub fn execute(components: &mut Components, action: RevenueAction, authority: Addr, now: i64) -> (r:
    Result<(), SystemError>)
    ensures
        r == execute_result(*old(components), action, authority),
        r is Ok ==> match action {
            RevenueAction::DistributeMatchRevenue { match_id, total_fees } => distributed(
                *old(components),
                *final(components),
                match_id,
                total_fees,
                now,
            ),
            RevenueAction::WithdrawCreatorRevenue { amount } => withdrawn_creator(
                *old(components),
                *final(components),
                amount,
                now,
            ),
        },
        r is Err ==> *final(components) == *old(components),
        wf_all(*old(components)) ==> wf_all(*final(components)),
{
    match action {
        RevenueAction::DistributeMatchRevenue { match_id, total_fees } => distribute_match_revenue(
            components,
            match_id,
            total_fees,
            now,
        ),
        RevenueAction::WithdrawCreatorRevenue { amount } => withdraw_creator_revenue(
            components,
            amount,
            authority,
            now,
        ),
    }
}

} // verus!
