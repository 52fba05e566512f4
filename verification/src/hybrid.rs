//! Concrete player types behind an enum, with their behaviour in a trait:
//! closed and open polymorphism together.
use vstd::prelude::*;

verus! {

/// What every player has.
#[derive(Debug, PartialEq)]
pub struct CommonStats {
    pub name: String,
    pub lifepoints: u32,
    pub score: u32,
}

/// The stats after a heal of `gain` lifepoints.
pub open spec fn gain_lifepoints(stats: CommonStats, gain: nat) -> CommonStats {
    CommonStats { lifepoints: (stats.lifepoints + gain) as u32, ..stats }
}

/// The behaviour that every kind of player offers.
pub trait PlayerBehavior {
    /// The stats the player holds.
    spec fn stats_view(&self) -> CommonStats;

    /// The lifepoints that the next heal adds.
    spec fn heal_gain(&self) -> nat;

    /// Whether the next heal keeps the lifepoints within `u32`.
    open spec fn can_heal(&self) -> bool {
        self.stats_view().lifepoints + self.heal_gain() <= u32::MAX
    }

    /// Adds the heal gain to the lifepoints, and nothing else to the stats.
    fn heal(&mut self)
        requires
            old(self).can_heal(),
        ensures
            final(self).stats_view() == gain_lifepoints(old(self).stats_view(), old(self).heal_gain()),
    ;
}

/// A human heals with its medic kit (80) first, which it then loses, and
/// otherwise with a potion (40).
#[derive(Debug, PartialEq)]
pub struct Human {
    pub stats: CommonStats,
    potions: u32,
    has_medic_kit: bool,
}

impl Human {
    pub closed spec fn potion_count(&self) -> u32 {
        self.potions
    }

    /// A human with the given stats, potions and medic kit.
    pub fn new(stats: CommonStats, potions: u32, has_medic_kit: bool) -> (h: Self)
        ensures
            h.stats_view() == stats,
            h.potion_count() == potions,
            h.holds_medic_kit() == has_medic_kit,
    {
        Human { stats, potions, has_medic_kit }
    }

    pub closed spec fn holds_medic_kit(&self) -> bool {
        self.has_medic_kit
    }
}

impl PlayerBehavior for Human {
    closed spec fn stats_view(&self) -> CommonStats {
        self.stats
    }

    closed spec fn heal_gain(&self) -> nat {
        if self.has_medic_kit {
            80
        } else if self.potions > 0 {
            40
        } else {
            0
        }
    }

    fn heal(&mut self)
        ensures
            old(self).heal_gain() == (if old(self).holds_medic_kit() {
                80nat
            } else if old(self).potion_count() > 0 {
                40
            } else {
                0
            }),
            final(self).potion_count() == (if !old(self).holds_medic_kit()
                && old(self).potion_count() > 0 {
                old(self).potion_count() - 1
            } else {
                old(self).potion_count() as int
            }),
            !final(self).holds_medic_kit(),
    {
        if self.has_medic_kit {
            self.stats.lifepoints += 80;
            self.has_medic_kit = false;
        } else if self.potions > 0 {
            self.stats.lifepoints += 40;
            self.potions -= 1;
        }
    }
}

/// A healer heals by its mana.
///
/// Its mana multiplier is held as `mana_percent`: one hundred times the
/// multiplier, truncated to a whole number, which is the number of
/// lifepoints a heal restores.
#[derive(Debug, PartialEq)]
pub struct HealerNPC {
    pub stats: CommonStats,
    mana_percent: u32,
}

impl HealerNPC {
    pub closed spec fn mana(&self) -> u32 {
        self.mana_percent
    }

    /// A healer with the given stats whose heal restores `mana_percent`
    /// lifepoints.
    pub fn new(stats: CommonStats, mana_percent: u32) -> (n: Self)
        ensures
            n.stats_view() == stats,
            n.mana() == mana_percent,
    {
        HealerNPC { stats, mana_percent }
    }
}

impl PlayerBehavior for HealerNPC {
    closed spec fn stats_view(&self) -> CommonStats {
        self.stats
    }

    closed spec fn heal_gain(&self) -> nat {
        self.mana_percent as nat
    }

    fn heal(&mut self)
        ensures
            old(self).heal_gain() == old(self).mana(),
            final(self).mana() == old(self).mana(),
    {
        let heal_amount = self.mana_percent;
        self.stats.lifepoints += heal_amount;
    }
}

/// One player of either kind.
#[derive(Debug, PartialEq)]
pub enum Players {
    Human(Human),
    HealerNPC(HealerNPC),
}

/// A player of either kind heals as its kind does.
impl PlayerBehavior for Players {
    open spec fn stats_view(&self) -> CommonStats {
        match self {
            Players::Human(h) => h.stats_view(),
            Players::HealerNPC(n) => n.stats_view(),
        }
    }

    open spec fn heal_gain(&self) -> nat {
        match self {
            Players::Human(h) => h.heal_gain(),
            Players::HealerNPC(n) => n.heal_gain(),
        }
    }

    fn heal(&mut self)
        ensures
            match *old(self) {
                Players::Human(a) => *final(self) matches Players::Human(b) && !b.holds_medic_kit()
                    && b.potion_count() == (if !a.holds_medic_kit() && a.potion_count() > 0 {
                    a.potion_count() - 1
                } else {
                    a.potion_count() as int
                }),
                Players::HealerNPC(a) => *final(self) matches Players::HealerNPC(b) && b.mana()
                    == a.mana(),
            },
    {
        match self {
            Players::Human(h) => h.heal(),
            Players::HealerNPC(n) => n.heal(),
        }
    }
}

/// Heals a player whose type is known where this is called.
pub fn heal_player_static(whom: &mut impl PlayerBehavior)
    requires
        old(whom).can_heal(),
    ensures
        final(whom).stats_view() == gain_lifepoints(old(whom).stats_view(), old(whom).heal_gain()),
{
    whom.heal();
}

/// Heals a player whose type is known only when this runs.
pub fn heal_player_dyn(whom: &mut dyn PlayerBehavior)
    requires
        old(whom).can_heal(),
    ensures
        final(whom).stats_view() == gain_lifepoints(old(whom).stats_view(), old(whom).heal_gain()),
{
    whom.heal();
}

/// A human heals 80 with its medic kit, otherwise 40 with a potion, and
/// otherwise nothing; a healer heals its mana.
pub proof fn lemma_hybrid_gains(h: Human, n: HealerNPC)
    ensures
        h.holds_medic_kit() ==> h.heal_gain() == 80,
        !h.holds_medic_kit() && h.potion_count() > 0 ==> h.heal_gain() == 40,
        !h.holds_medic_kit() && h.potion_count() == 0 ==> h.heal_gain() == 0,
        n.heal_gain() == n.mana(),
{
}

} // verus!
