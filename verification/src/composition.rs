//! Players that share their common stats and differ in a kind: closed
//! polymorphism by composition.
use vstd::prelude::*;

verus! {

/// What every player has.
#[derive(Debug, PartialEq)]
pub struct CommonStats {
    pub name: String,
    pub lifepoints: u32,
    pub score: u32,
}

/// What sets one kind of player apart.
///
/// A healer's mana multiplier is held as `mana_percent`: one hundred times
/// the multiplier, truncated to a whole number, which is the number of
/// lifepoints a heal restores.
#[derive(Debug, PartialEq)]
pub enum PlayerKind {
    Human { potions: u32, has_medic_kit: bool },
    HealerNPC { mana_percent: u32 },
    BerserkerNPC { rage_threshold: u32 },
}

#[derive(Debug, PartialEq)]
pub struct Player {
    pub stats: CommonStats,
    pub kind: PlayerKind,
}

/// The lifepoints that one heal adds: a human uses a medic kit (80) before
/// a potion (40); a healer adds its mana; a berserker adds 25 while below
/// its rage threshold.
pub open spec fn heal_gain(kind: PlayerKind, lifepoints: u32) -> nat {
    match kind {
        PlayerKind::Human { potions, has_medic_kit } => if has_medic_kit {
            80
        } else if potions > 0 {
            40
        } else {
            0
        },
        PlayerKind::HealerNPC { mana_percent } => mana_percent as nat,
        PlayerKind::BerserkerNPC { rage_threshold } => if lifepoints < rage_threshold {
            25
        } else {
            0
        },
    }
}

/// The kind after one heal: a human spends its medic kit, or else one
/// potion; the other kinds spend nothing.
pub open spec fn kind_after_heal(kind: PlayerKind) -> PlayerKind {
    match kind {
        PlayerKind::Human { potions, has_medic_kit } => if has_medic_kit {
            PlayerKind::Human { potions, has_medic_kit: false }
        } else if potions > 0 {
            PlayerKind::Human { potions: (potions - 1) as u32, has_medic_kit: false }
        } else {
            kind
        },
        _ => kind,
    }
}

impl Player {
    /// Whether a heal keeps the lifepoints within `u32`.
    pub open spec fn can_heal(self) -> bool {
        self.stats.lifepoints + heal_gain(self.kind, self.stats.lifepoints) <= u32::MAX
    }

    /// The player after one heal.
    pub open spec fn healed(self) -> Player {
        Player {
            stats: CommonStats {
                lifepoints: (self.stats.lifepoints + heal_gain(
                    self.kind,
                    self.stats.lifepoints,
                )) as u32,
                ..self.stats
            },
            kind: kind_after_heal(self.kind),
        }
    }

    pub fn new(name: String, lifepoints: u32, score: u32, kind: PlayerKind) -> (p: Self)
        ensures
            p == (Player { stats: CommonStats { name, lifepoints, score }, kind }),
    {
        Self { stats: CommonStats { name, lifepoints, score }, kind }
    }

    /// Whether a heal keeps the lifepoints within `u32`.
    pub fn heal_fits(&self) -> (r: bool)
        ensures
            r == self.can_heal(),
    {
        let gain: u32 = match &self.kind {
            PlayerKind::Human { potions, has_medic_kit } => {
                if *has_medic_kit {
                    80
                } else if *potions > 0 {
                    40
                } else {
                    0
                }
            },
            PlayerKind::HealerNPC { mana_percent } => *mana_percent,
            PlayerKind::BerserkerNPC { rage_threshold } => {
                if self.stats.lifepoints < *rage_threshold {
                    25
                } else {
                    0
                }
            },
        };
        gain <= u32::MAX - self.stats.lifepoints
    }

    pub fn heal(&mut self)
        requires
            old(self).can_heal(),
        ensures
            *final(self) == old(self).healed(),
    {
        match &mut self.kind {
            PlayerKind::Human { potions, has_medic_kit } => {
                if *has_medic_kit {
                    self.stats.lifepoints += 80;
                    *has_medic_kit = false;
                } else if *potions > 0 {
                    self.stats.lifepoints += 40;
                    *potions -= 1;
                }
            },
            PlayerKind::HealerNPC { mana_percent } => {
                let heal_amount = *mana_percent;
                self.stats.lifepoints += heal_amount;
            },
            PlayerKind::BerserkerNPC { rage_threshold } => {
                if self.stats.lifepoints < *rage_threshold {
                    self.stats.lifepoints += 25;
                }
            },
        }
    }
}

/// A heal never takes lifepoints away and keeps the name and the score.
pub proof fn lemma_heal_only_adds(p: Player)
    requires
        p.can_heal(),
    ensures
        p.healed().stats.lifepoints >= p.stats.lifepoints,
        p.healed().stats.name == p.stats.name,
        p.healed().stats.score == p.stats.score,
{
}

/// A human's medic kit and potions never come back: after a heal it has no
/// medic kit, and no more potions than before.
pub proof fn lemma_human_supplies_shrink(p: Player)
    requires
        p.kind is Human,
    ensures
        p.healed().kind matches PlayerKind::Human { potions, has_medic_kit } && !has_medic_kit
            && potions <= p.kind->potions,
{
}

/// A berserker at or above its rage threshold does not heal.
pub proof fn lemma_berserker_rests_above_threshold(p: Player)
    requires
        p.kind matches PlayerKind::BerserkerNPC { rage_threshold } && p.stats.lifepoints
            >= rage_threshold,
    ensures
        p.healed() == p,
{
}

/// What one heal adds: a human 80 with its medic kit, otherwise 40 with a
/// potion, otherwise nothing; a healer its mana; a berserker 25 below its
/// rage threshold and nothing at or above it.
pub proof fn lemma_heal_gains(p: Player)
    requires
        p.can_heal(),
    ensures
        p.kind matches PlayerKind::Human { has_medic_kit, .. } && has_medic_kit
            ==> p.healed().stats.lifepoints == p.stats.lifepoints + 80,
        p.kind matches PlayerKind::Human { potions, has_medic_kit } && !has_medic_kit && potions > 0
            ==> p.healed().stats.lifepoints == p.stats.lifepoints + 40,
        p.kind matches PlayerKind::Human { potions, has_medic_kit } && !has_medic_kit && potions
            == 0 ==> p.healed() == p,
        p.kind matches PlayerKind::HealerNPC { mana_percent }
            ==> p.healed().stats.lifepoints == p.stats.lifepoints + mana_percent,
        p.kind matches PlayerKind::BerserkerNPC { rage_threshold } && p.stats.lifepoints
            < rage_threshold ==> p.healed().stats.lifepoints == p.stats.lifepoints + 25,
{
}

} // verus!
