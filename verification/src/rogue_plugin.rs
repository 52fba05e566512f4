//! A kind of player added from outside the core party module, through the
//! [`Player`] trait alone.
use vstd::prelude::*;

use crate::open_party::{Player, PlayerStats};

verus! {

/// A rogue heals 15 by spending 10 stealth points while it has more than
/// 10, and 5 otherwise.
///
/// Its critical multiplier is held as `critical_percent`: one hundred times
/// the multiplier, truncated to a whole number.
pub struct Rogue {
    pub stats: PlayerStats,
    pub stealth_points: u32,
    pub critical_percent: u32,
}

impl Player for Rogue {
    open spec fn stats_view(&self) -> PlayerStats {
        self.stats
    }

    open spec fn heal_gain(&self) -> nat {
        if self.stealth_points > 10 {
            15
        } else {
            5
        }
    }

    fn stats(&self) -> (r: &PlayerStats) {
        &self.stats
    }

    fn stats_mut(&mut self) -> (r: &mut PlayerStats)
        ensures
            *final(self) == (Rogue { stats: *final(r), ..*old(self) }),
    {
        &mut self.stats
    }

    fn heal_fits(&self) -> (r: bool) {
        let gain: u32 = if self.stealth_points > 10 {
            15
        } else {
            5
        };
        gain <= u32::MAX - self.stats.lifepoints
    }

    fn heal(&mut self)
        ensures
            final(self).stealth_points == (if old(self).stealth_points > 10 {
                old(self).stealth_points - 10
            } else {
                old(self).stealth_points as int
            }),
            final(self).critical_percent == old(self).critical_percent,
    {
        if self.stealth_points > 10 {
            self.stealth_points -= 10;
            self.stats_mut().lifepoints += 15;
        } else {
            self.stats_mut().lifepoints += 5;
        }
    }
}

/// A rogue heals 15 while it has more than 10 stealth points and 5
/// otherwise.
pub proof fn lemma_rogue_gain(r: Rogue)
    ensures
        r.stealth_points > 10 ==> r.heal_gain() == 15,
        r.stealth_points <= 10 ==> r.heal_gain() == 5,
{
}

} // verus!
