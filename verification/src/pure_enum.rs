//! Players as one enum whose variants each carry all their fields: closed
//! polymorphism without shared parts.
use vstd::prelude::*;

verus! {

/// A player of one of three kinds.
///
/// A healer's mana multiplier is held as `mana_percent`: one hundred times
/// the multiplier, truncated to a whole number, which is the number of
/// lifepoints a heal restores.
#[derive(Debug, PartialEq)]
pub enum Player {
    Human { name: String, lifepoints: u32, score: u32, potions: u32, has_medic_kit: bool },
    HealerNPC { name: String, lifepoints: u32, score: u32, mana_percent: u32 },
    BerserkerNPC { name: String, lifepoints: u32, score: u32, rage_threshold: u32 },
}

impl Player {
    pub open spec fn name_view(self) -> Seq<char> {
        match self {
            Player::Human { name, .. } => name@,
            Player::HealerNPC { name, .. } => name@,
            Player::BerserkerNPC { name, .. } => name@,
        }
    }

    pub open spec fn life(self) -> u32 {
        match self {
            Player::Human { lifepoints, .. } => lifepoints,
            Player::HealerNPC { lifepoints, .. } => lifepoints,
            Player::BerserkerNPC { lifepoints, .. } => lifepoints,
        }
    }

    /// The lifepoints that one heal adds: a human uses a medic kit (80)
    /// before a potion (40); a healer adds its mana; a berserker adds 25
    /// while below its rage threshold.
    pub open spec fn heal_gain(self) -> nat {
        match self {
            Player::Human { potions, has_medic_kit, .. } => if has_medic_kit {
                80
            } else if potions > 0 {
                40
            } else {
                0
            },
            Player::HealerNPC { mana_percent, .. } => mana_percent as nat,
            Player::BerserkerNPC { lifepoints, rage_threshold, .. } => if lifepoints
                < rage_threshold {
                25
            } else {
                0
            },
        }
    }

    /// Whether a heal keeps the lifepoints within `u32`.
    pub open spec fn can_heal(self) -> bool {
        self.life() + self.heal_gain() <= u32::MAX
    }

    /// The player after one heal: the gain is added, and a human spends its
    /// medic kit, or else one potion.
    pub open spec fn healed(self) -> Player {
        let gained = (self.life() + self.heal_gain()) as u32;
        match self {
            Player::Human { name, score, potions, has_medic_kit, .. } => if has_medic_kit {
                Player::Human { name, lifepoints: gained, score, potions, has_medic_kit: false }
            } else if potions > 0 {
                Player::Human {
                    name,
                    lifepoints: gained,
                    score,
                    potions: (potions - 1) as u32,
                    has_medic_kit,
                }
            } else {
                self
            },
            Player::HealerNPC { name, score, mana_percent, .. } => Player::HealerNPC {
                name,
                lifepoints: gained,
                score,
                mana_percent,
            },
            Player::BerserkerNPC { name, score, rage_threshold, .. } => Player::BerserkerNPC {
                name,
                lifepoints: gained,
                score,
                rage_threshold,
            },
        }
    }

    pub fn name(&self) -> (r: &str)
        ensures
            r@ == self.name_view(),
    {
        match self {
            Player::Human { name, .. } => name.as_str(),
            Player::HealerNPC { name, .. } => name.as_str(),
            Player::BerserkerNPC { name, .. } => name.as_str(),
        }
    }

    pub fn lifepoints(&self) -> (r: u32)
        ensures
            r == self.life(),
    {
        match self {
            Player::Human { lifepoints, .. } => *lifepoints,
            Player::HealerNPC { lifepoints, .. } => *lifepoints,
            Player::BerserkerNPC { lifepoints, .. } => *lifepoints,
        }
    }

    /// Whether a heal keeps the lifepoints within `u32`.
    pub fn heal_fits(&self) -> (r: bool)
        ensures
            r == self.can_heal(),
    {
        let (lifepoints, gain): (u32, u32) = match self {
            Player::Human { lifepoints, potions, has_medic_kit, .. } => {
                if *has_medic_kit {
                    (*lifepoints, 80)
                } else if *potions > 0 {
                    (*lifepoints, 40)
                } else {
                    (*lifepoints, 0)
                }
            },
            Player::HealerNPC { lifepoints, mana_percent, .. } => (*lifepoints, *mana_percent),
            Player::BerserkerNPC { lifepoints, rage_threshold, .. } => {
                if *lifepoints < *rage_threshold {
                    (*lifepoints, 25)
                } else {
                    (*lifepoints, 0)
                }
            },
        };
        gain <= u32::MAX - lifepoints
    }

    pub fn heal(&mut self)
        requires
            old(self).can_heal(),
        ensures
            *final(self) == old(self).healed(),
    {
        match self {
            Player::Human { lifepoints, potions, has_medic_kit, .. } => {
                if *has_medic_kit {
                    *lifepoints += 80;
                    *has_medic_kit = false;
                } else if *potions > 0 {
                    *lifepoints += 40;
                    *potions -= 1;
                }
            },
            Player::HealerNPC { lifepoints, mana_percent, .. } => {
                let heal_amount = *mana_percent;
                *lifepoints += heal_amount;
            },
            Player::BerserkerNPC { lifepoints, rage_threshold, .. } => {
                if *lifepoints < *rage_threshold {
                    *lifepoints += 25;
                }
            },
        }
    }
}

/// Heals every player of the party once, in place.
pub fn heal_all(party: &mut Vec<Player>)
    requires
        forall|i: int| 0 <= i < old(party)@.len() ==> (#[trigger] old(party)@[i]).can_heal(),
    ensures
        final(party)@.len() == old(party)@.len(),
        forall|i: int|
            0 <= i < old(party)@.len() ==> #[trigger] final(party)@[i] == old(party)@[i].healed(),
{
    let ghost before = party@;
    let mut i: usize = 0;
    while i < party.len()
        invariant
            party@.len() == before.len(),
            forall|j: int| 0 <= j < i ==> #[trigger] party@[j] == before[j].healed(),
            forall|j: int| i <= j < before.len() ==> #[trigger] party@[j] == before[j],
            forall|j: int| 0 <= j < before.len() ==> (#[trigger] before[j]).can_heal(),
        decreases before.len() - i,
    {
        party[i].heal();
        i += 1;
    }
}

/// A heal never takes lifepoints away, and keeps the name.
pub proof fn lemma_heal_only_adds(p: Player)
    requires
        p.can_heal(),
    ensures
        p.healed().life() >= p.life(),
        p.healed().name_view() == p.name_view(),
{
}

/// The player of the composed design as a player of this one.
pub open spec fn from_composed(p: crate::composition::Player) -> Player {
    match p.kind {
        crate::composition::PlayerKind::Human { potions, has_medic_kit } => Player::Human {
            name: p.stats.name,
            lifepoints: p.stats.lifepoints,
            score: p.stats.score,
            potions,
            has_medic_kit,
        },
        crate::composition::PlayerKind::HealerNPC { mana_percent } => Player::HealerNPC {
            name: p.stats.name,
            lifepoints: p.stats.lifepoints,
            score: p.stats.score,
            mana_percent,
        },
        crate::composition::PlayerKind::BerserkerNPC { rage_threshold } => Player::BerserkerNPC {
            name: p.stats.name,
            lifepoints: p.stats.lifepoints,
            score: p.stats.score,
            rage_threshold,
        },
    }
}

/// Both closed designs heal alike: healing a composed player and then
/// viewing it as an enum player is the same as healing the enum player.
pub proof fn lemma_designs_heal_alike(p: crate::composition::Player)
    ensures
        from_composed(p).can_heal() == p.can_heal(),
        from_composed(p.healed()) == from_composed(p).healed(),
{
}

/// What one heal adds: a human 80 with its medic kit, otherwise 40 with a
/// potion, otherwise nothing; a healer its mana; a berserker 25 below its
/// rage threshold and nothing at or above it.
pub proof fn lemma_heal_gains(p: Player)
    requires
        p.can_heal(),
    ensures
        p matches Player::Human { has_medic_kit, .. } && has_medic_kit ==> p.healed().life()
            == p.life() + 80,
        p matches Player::Human { potions, has_medic_kit, .. } && !has_medic_kit && potions > 0
            ==> p.healed().life() == p.life() + 40,
        p matches Player::Human { potions, has_medic_kit, .. } && !has_medic_kit && potions == 0
            ==> p.healed() == p,
        p matches Player::HealerNPC { mana_percent, .. } ==> p.healed().life() == p.life()
            + mana_percent,
        p matches Player::BerserkerNPC { lifepoints, rage_threshold, .. } && lifepoints
            < rage_threshold ==> p.healed().life() == p.life() + 25,
        p matches Player::BerserkerNPC { lifepoints, rage_threshold, .. } && lifepoints
            >= rage_threshold ==> p.healed() == p,
{
}

} // verus!
