//! The skill record of one player: a represented-asset identity, a
//! role, seven skill attributes each constrained to the range 0..=100,
//! and monotonically non-decreasing match counters.

use vstd::prelude::*;
use vstd::string::StrSliceExecFns;
use crate::addr::Addr;

verus! {

/// Per-player skill attributes and match counters.
#[derive(Clone, Debug)]
pub struct PlayerStats {
    pub nft_mint: Addr,
    pub role: String,
    /// Mechanical skill, 0..=100.
    pub mechanical: u8,
    /// Game knowledge, 0..=100.
    pub game_knowledge: u8,
    /// Team communication, 0..=100.
    pub team_communication: u8,
    /// Adaptability, 0..=100.
    pub adaptability: u8,
    /// Consistency, 0..=100.
    pub consistency: u8,
    /// Current form, 0..=100; moves with match results.
    pub form: u8,
    /// Long-term potential, 0..=100.
    pub potential: u8,
    pub matches_played: u32,
    pub wins: u32,
    pub losses: u32,
}

#[derive(Clone, Copy, PartialEq, Eq, Structural, Debug)]
pub enum ComponentError {
    /// An attribute value lies outside 0..=100.
    InvalidAttribute,
    /// The role string is longer than 20 characters.
    InvalidRole,
}

/// Increment a match counter, saturating at the type bound so the
/// counter stays monotonically non-decreasing on every input.
pub open spec fn inc_sat(x: u32) -> u32 {
    if x == u32::MAX {
        x
    } else {
        (x + 1) as u32
    }
}

/// Form after one match: +5 capped at 100 on a win, -3 floored at 0 on
/// a loss.
pub open spec fn form_after(form: u8, win: bool) -> u8 {
    if win {
        if form > 95 {
            100u8
        } else {
            (form + 5) as u8
        }
    } else {
        if form >= 3 {
            (form - 3) as u8
        } else {
            0u8
        }
    }
}

/// The record after one recorded match result: matches_played and
/// exactly one of wins/losses advance (saturating); nothing else moves.
pub open spec fn counters_after(p: PlayerStats, win: bool) -> PlayerStats {
    PlayerStats {
        matches_played: inc_sat(p.matches_played),
        wins: if win {
            inc_sat(p.wins)
        } else {
            p.wins
        },
        losses: if !win {
            inc_sat(p.losses)
        } else {
            p.losses
        },
        ..p
    }
}

/// The record after playing one match: the counters advance as in
/// `counters_after` and the form moves as in `form_after`.
pub open spec fn after_match(p: PlayerStats, win: bool) -> PlayerStats {
    PlayerStats { form: form_after(p.form, win), ..counters_after(p, win) }
}

/// Playing a match keeps a well-formed player record well-formed: the
/// form stays within 0..=100 and no other attribute moves.
pub proof fn lemma_after_match_wf(p: PlayerStats, win: bool)
    requires
        p.wf(),
    ensures
        after_match(p, win).wf(),
{
}

impl PlayerStats {
    /// All seven skill attributes lie in 0..=100.
    pub open spec fn attrs_valid(self) -> bool {
        &&& self.mechanical <= 100
        &&& self.game_knowledge <= 100
        &&& self.team_communication <= 100
        &&& self.adaptability <= 100
        &&& self.consistency <= 100
        &&& self.form <= 100
        &&& self.potential <= 100
    }

    /// Record well-formedness: valid attributes and a bounded role.
    pub open spec fn wf(self) -> bool {
        &&& self.attrs_valid()
        &&& self.role@.len() <= 20
    }

    /// First write of the record. Rejects any attribute outside
    /// 0..=100 and a role longer than 20 characters; otherwise stores
    /// the inputs verbatim and zeroes the match counters.
    pub fn initialize_stats(
        &mut self,
        nft_mint: Addr,
        role: String,
        mechanical: u8,
        game_knowledge: u8,
        team_communication: u8,
        adaptability: u8,
        consistency: u8,
        form: u8,
        potential: u8,
    ) -> (r: Result<(), ComponentError>)
        ensures
            r == (if !(mechanical <= 100 && game_knowledge <= 100 && team_communication <= 100
                && adaptability <= 100 && consistency <= 100 && form <= 100 && potential <= 100) {
                Err::<(), ComponentError>(ComponentError::InvalidAttribute)
            } else if role@.len() > 20 {
                Err::<(), ComponentError>(ComponentError::InvalidRole)
            } else {
                Ok::<(), ComponentError>(())
            }),
            r is Ok ==> *final(self) == (PlayerStats {
                nft_mint,
                role,
                mechanical,
                game_knowledge,
                team_communication,
                adaptability,
                consistency,
                form,
                potential,
                matches_played: 0u32,
                wins: 0u32,
                losses: 0u32,
            }),
            r is Ok ==> final(self).wf(),
            r is Err ==> *final(self) == *old(self),
    {
        if !(mechanical <= 100 && game_knowledge <= 100 && team_communication <= 100
            && adaptability <= 100 && consistency <= 100 && form <= 100 && potential <= 100) {
            return Err(ComponentError::InvalidAttribute);
        }
        if role.as_str().unicode_len() > 20 {
            return Err(ComponentError::InvalidRole);
        }
        self.nft_mint = nft_mint;
        self.role = role;
        self.mechanical = mechanical;
        self.game_knowledge = game_knowledge;
        self.team_communication = team_communication;
        self.adaptability = adaptability;
        self.consistency = consistency;
        self.form = form;
        self.potential = potential;
        self.matches_played = 0;
        self.wins = 0;
        self.losses = 0;
        Ok(())
    }

    /// Overwrite the form attribute; rejects a value above 100 and
    /// leaves the record untouched in that case.
    pub fn update_form(&mut self, new_form: u8) -> (r: Result<(), ComponentError>)
        ensures
            r == (if new_form > 100 {
                Err::<(), ComponentError>(ComponentError::InvalidAttribute)
            } else {
                Ok::<(), ComponentError>(())
            }),
            r is Ok ==> *final(self) == (PlayerStats { form: new_form, ..*old(self) }),
            r is Err ==> *final(self) == *old(self),
    {
        if new_form > 100 {
            return Err(ComponentError::InvalidAttribute);
        }
        self.form = new_form;
        Ok(())
    }

    /// Count one finished match: matches_played always advances, and
    /// exactly one of wins/losses advances, each saturating at the
    /// counter bound.
    pub fn record_match_result(&mut self, win: bool) -> (r: Result<(), ComponentError>)
        ensures
            r is Ok,
            *final(self) == counters_after(*old(self), win),
    {
        self.matches_played = if self.matches_played == u32::MAX {
            u32::MAX
        } else {
            self.matches_played + 1
        };
        if win {
            self.wins = if self.wins == u32::MAX {
                u32::MAX
            } else {
                self.wins + 1
            };
        } else {
            self.losses = if self.losses == u32::MAX {
                u32::MAX
            } else {
                self.losses + 1
            };
        }
        Ok(())
    }
}

} // verus!
