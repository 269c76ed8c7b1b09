//! The stake record of one team: a staked amount and a lock flag. The
//! record is a two-state machine over {Unlocked, Locked}; staking and
//! unstaking are refused while locked, and locking or unlocking twice
//! in a row is refused rather than silently ignored.

use vstd::prelude::*;
use crate::addr::Addr;

verus! {

/// Stake bookkeeping for one team.
#[derive(Clone, Debug)]
pub struct TeamStake {
    pub team_entity: Addr,
    pub staker: Addr,
    pub staked_amount: u64,
    pub stake_timestamp: i64,
    pub last_reward_timestamp: i64,
    pub locked: bool,
}

#[derive(Clone, Copy, PartialEq, Eq, Structural, Debug)]
pub enum StakeError {
    /// The stake is locked; staking and unstaking are refused.
    StakeLocked,
    /// `lock_stake` on an already locked stake.
    StakeAlreadyLocked,
    /// `unlock_stake` on an already unlocked stake.
    StakeAlreadyUnlocked,
    /// Staking this amount would overflow the staked total.
    Overflow,
}

/// The decision of `stake` over the record and the amount.
pub open spec fn stake_result(s: TeamStake, amount: u64) -> Result<(), StakeError> {
    if s.locked {
        Err(StakeError::StakeLocked)
    } else if s.staked_amount + amount > u64::MAX {
        Err(StakeError::Overflow)
    } else {
        Ok(())
    }
}

impl TeamStake {
    /// First write of the record: both parties stored, nothing staked,
    /// unlocked, both timestamps stamped with the current time.
    pub fn initialize(&mut self, team_entity: Addr, staker: Addr, now: i64) -> (r: Result<
        (),
        StakeError,
    >)
        ensures
            r is Ok,
            *final(self) == (TeamStake {
                team_entity,
                staker,
                staked_amount: 0u64,
                stake_timestamp: now,
                last_reward_timestamp: now,
                locked: false,
            }),
    {
        self.team_entity = team_entity;
        self.staker = staker;
        self.staked_amount = 0;
        self.stake_timestamp = now;
        self.last_reward_timestamp = now;
        self.locked = false;
        Ok(())
    }

    /// Add to the staked amount. Refused while locked, and refused if
    /// the addition would overflow; the record is unchanged on any
    /// refusal.
    pub fn stake(&mut self, amount: u64) -> (r: Result<(), StakeError>)
        ensures
            r == stake_result(*old(self), amount),
            r is Ok ==> *final(self) == (TeamStake {
                staked_amount: (old(self).staked_amount + amount) as u64,
                ..*old(self)
            }),
            r is Err ==> *final(self) == *old(self),
    {
        if self.locked {
            return Err(StakeError::StakeLocked);
        }
        match self.staked_amount.checked_add(amount) {
            Some(total) => {
                self.staked_amount = total;
                Ok(())
            },
            None => Err(StakeError::Overflow),
        }
    }

    /// Withdraw the whole staked amount, returning it and resetting
    /// the stake to zero. Refused while locked, with the record
    /// unchanged.
    pub fn unstake(&mut self) -> (r: Result<u64, StakeError>)
        ensures
            old(self).locked ==> r == Err::<u64, StakeError>(StakeError::StakeLocked)
                && *final(self) == *old(self),
            !old(self).locked ==> r == Ok::<u64, StakeError>(old(self).staked_amount)
                && *final(self) == (TeamStake { staked_amount: 0u64, ..*old(self) }),
    {
        if self.locked {
            return Err(StakeError::StakeLocked);
        }
        let amount = self.staked_amount;
        self.staked_amount = 0;
        Ok(amount)
    }

    /// Move from Unlocked to Locked; refused (not a no-op) if already
    /// locked.
    pub fn lock_stake(&mut self) -> (r: Result<(), StakeError>)
        ensures
            old(self).locked ==> r == Err::<(), StakeError>(StakeError::StakeAlreadyLocked)
                && *final(self) == *old(self),
            !old(self).locked ==> r == Ok::<(), StakeError>(())
                && *final(self) == (TeamStake { locked: true, ..*old(self) }),
    {
        if self.locked {
            return Err(StakeError::StakeAlreadyLocked);
        }
        self.locked = true;
        Ok(())
    }

    /// Move from Locked to Unlocked; refused (not a no-op) if already
    /// unlocked.
    pub fn unlock_stake(&mut self) -> (r: Result<(), StakeError>)
        ensures
            !old(self).locked ==> r == Err::<(), StakeError>(StakeError::StakeAlreadyUnlocked)
                && *final(self) == *old(self),
            old(self).locked ==> r == Ok::<(), StakeError>(())
                && *final(self) == (TeamStake { locked: false, ..*old(self) }),
    {
        if !self.locked {
            return Err(StakeError::StakeAlreadyUnlocked);
        }
        self.locked = false;
        Ok(())
    }

    /// Stamp the reward timestamp with the current time,
    /// unconditionally.
    pub fn update_reward_timestamp(&mut self, now: i64) -> (r: Result<(), StakeError>)
        ensures
            r is Ok,
            *final(self) == (TeamStake { last_reward_timestamp: now, ..*old(self) }),
    {
        self.last_reward_timestamp = now;
        Ok(())
    }
}

} // verus!
