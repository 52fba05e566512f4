//! Players as a trait that any type can implement: open polymorphism.
use vstd::prelude::*;

verus! {

/// What every player has.
#[derive(Debug, PartialEq)]
pub struct PlayerStats {
    pub name: String,
    pub lifepoints: u32,
    pub score: u32,
}

/// The stats after a heal of `gain` lifepoints.
pub open spec fn gain_lifepoints(stats: PlayerStats, gain: nat) -> PlayerStats {
    PlayerStats { lifepoints: (stats.lifepoints + gain) as u32, ..stats }
}

/// A player: a type that holds [`PlayerStats`] and knows how to heal.
pub trait Player {
    /// The stats the player holds.
    spec fn stats_view(&self) -> PlayerStats;

    /// The lifepoints that the next heal adds.
    spec fn heal_gain(&self) -> nat;

    /// Whether the next heal keeps the lifepoints within `u32`.
    open spec fn can_heal(&self) -> bool {
        self.stats_view().lifepoints + self.heal_gain() <= u32::MAX
    }

    fn stats(&self) -> (r: &PlayerStats)
        ensures
            *r == self.stats_view(),
    ;

    fn stats_mut(&mut self) -> (r: &mut PlayerStats)
        ensures
            *r == old(self).stats_view(),
            final(self).stats_view() == *final(r),
    ;

    /// Whether the next heal keeps the lifepoints within `u32`.
    fn heal_fits(&self) -> (r: bool)
        ensures
            r == self.can_heal(),
    ;

    /// Adds the heal gain to the lifepoints, and nothing else to the stats.
    fn heal(&mut self)
        requires
            old(self).can_heal(),
        ensures
            final(self).stats_view() == gain_lifepoints(old(self).stats_view(), old(self).heal_gain()),
    ;

    fn name(&self) -> (r: &str)
        ensures
            r@ == self.stats_view().name@,
    {
        self.stats().name.as_str()
    }

    fn lifepoints(&self) -> (r: u32)
        ensures
            r == self.stats_view().lifepoints,
    {
        self.stats().lifepoints
    }
}

/// A human heals with a potion (20) while it has one, and otherwise with its
/// medic kit (50), which it keeps.
#[derive(Debug, PartialEq)]
pub struct Human {
    pub stats: PlayerStats,
    pub potions: u32,
    pub has_medic_kit: bool,
}

impl Player for Human {
    open spec fn stats_view(&self) -> PlayerStats {
        self.stats
    }

    open spec fn heal_gain(&self) -> nat {
        if self.potions > 0 {
            20
        } else if self.has_medic_kit {
            50
        } else {
            0
        }
    }

    fn stats(&self) -> (r: &PlayerStats) {
        &self.stats
    }

    fn stats_mut(&mut self) -> (r: &mut PlayerStats)
        ensures
            *final(self) == (Human { stats: *final(r), ..*old(self) }),
    {
        &mut self.stats
    }

    fn heal_fits(&self) -> (r: bool) {
        let gain: u32 = if self.potions > 0 {
            20
        } else if self.has_medic_kit {
            50
        } else {
            0
        };
        gain <= u32::MAX - self.stats.lifepoints
    }

    fn heal(&mut self)
        ensures
            final(self).potions == (if old(self).potions > 0 {
                old(self).potions - 1
            } else {
                0
            }),
            final(self).has_medic_kit == old(self).has_medic_kit,
    {
        if self.potions > 0 {
            self.potions -= 1;
            self.stats_mut().lifepoints += 20;
        } else if self.has_medic_kit {
            self.stats_mut().lifepoints += 50;
        }
    }
}

/// A healer heals by its mana.
///
/// Its mana multiplier is held as `mana_percent`: one hundred times the
/// multiplier, truncated to a whole number, which is the number of
/// lifepoints a heal restores.
#[derive(Debug, PartialEq)]
pub struct HealerNPC {
    pub stats: PlayerStats,
    pub mana_percent: u32,
}

impl Player for HealerNPC {
    open spec fn stats_view(&self) -> PlayerStats {
        self.stats
    }

    open spec fn heal_gain(&self) -> nat {
        self.mana_percent as nat
    }

    fn stats(&self) -> (r: &PlayerStats) {
        &self.stats
    }

    fn stats_mut(&mut self) -> (r: &mut PlayerStats)
        ensures
            *final(self) == (HealerNPC { stats: *final(r), ..*old(self) }),
    {
        &mut self.stats
    }

    fn heal_fits(&self) -> (r: bool) {
        self.mana_percent <= u32::MAX - self.stats.lifepoints
    }

    fn heal(&mut self)
        ensures
            final(self).mana_percent == old(self).mana_percent,
    {
        let heal_amount = self.mana_percent;
        self.stats.lifepoints += heal_amount;
    }
}

/// A berserker heals 25 while below its rage threshold.
#[derive(Debug, PartialEq)]
pub struct BerserkerNPC {
    pub stats: PlayerStats,
    pub rage_threshold: u32,
}

impl Player for BerserkerNPC {
    open spec fn stats_view(&self) -> PlayerStats {
        self.stats
    }

    open spec fn heal_gain(&self) -> nat {
        if self.stats.lifepoints < self.rage_threshold {
            25
        } else {
            0
        }
    }

    fn stats(&self) -> (r: &PlayerStats) {
        &self.stats
    }

    fn stats_mut(&mut self) -> (r: &mut PlayerStats)
        ensures
            *final(self) == (BerserkerNPC { stats: *final(r), ..*old(self) }),
    {
        &mut self.stats
    }

    fn heal_fits(&self) -> (r: bool) {
        let gain: u32 = if self.stats.lifepoints < self.rage_threshold {
            25
        } else {
            0
        };
        gain <= u32::MAX - self.stats.lifepoints
    }

    fn heal(&mut self)
        ensures
            final(self).rage_threshold == old(self).rage_threshold,
    {
        if self.stats.lifepoints < self.rage_threshold {
            self.stats.lifepoints += 25;
        }
    }
}

/// A heal of any player never takes lifepoints away and keeps the name and
/// the score.
pub proof fn lemma_heal_only_adds(stats: PlayerStats, gain: nat)
    requires
        stats.lifepoints + gain <= u32::MAX,
    ensures
        gain_lifepoints(stats, gain).lifepoints >= stats.lifepoints,
        gain_lifepoints(stats, gain).name == stats.name,
        gain_lifepoints(stats, gain).score == stats.score,
{
}

/// A berserker heals 25 lifepoints while it is below its rage threshold and
/// nothing at or above it; a heal fits exactly when those 25 stay within
/// `u32`.
pub proof fn lemma_berserker_heals_below_threshold(b: BerserkerNPC)
    ensures
        b.stats.lifepoints < b.rage_threshold ==> b.heal_gain() == 25,
        b.stats.lifepoints >= b.rage_threshold ==> b.heal_gain() == 0,
        b.can_heal() <==> (b.stats.lifepoints < b.rage_threshold ==> b.stats.lifepoints + 25
            <= u32::MAX),
{
}

/// A human heals 20 with a potion while it has one, otherwise 50 with its
/// medic kit, and otherwise nothing; a healer heals its mana.
pub proof fn lemma_human_and_healer_gains(h: Human, n: HealerNPC)
    ensures
        h.potions > 0 ==> h.heal_gain() == 20,
        h.potions == 0 && h.has_medic_kit ==> h.heal_gain() == 50,
        h.potions == 0 && !h.has_medic_kit ==> h.heal_gain() == 0,
        n.heal_gain() == n.mana_percent,
{
}

} // verus!
