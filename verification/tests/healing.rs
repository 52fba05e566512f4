use masterclass::composition::{Player as ComposedPlayer, PlayerKind};
use masterclass::hybrid::{
    heal_player_dyn, heal_player_static, CommonStats as HybridStats, HealerNPC as HybridHealer,
    Human as HybridHuman, PlayerBehavior, Players,
};
use masterclass::open_party::{BerserkerNPC, HealerNPC, Human, Player, PlayerStats};
use masterclass::pure_enum::{heal_all, Player as EnumPlayer};
use masterclass::rogue_plugin::Rogue;

fn percent32(multiplier: f32) -> u32 {
    (100.0 * multiplier) as u32
}

fn percent64(multiplier: f64) -> u32 {
    (100.0 * multiplier) as u32
}

#[test]
fn composition_test_polymorphic_vector_healing() {
    let mut party = vec![
        ComposedPlayer::new(
            "Alice".to_string(),
            40,
            100,
            PlayerKind::Human { potions: 1, has_medic_kit: true },
        ),
        ComposedPlayer::new(
            "Bob".to_string(),
            20,
            50,
            PlayerKind::HealerNPC { mana_percent: percent32(1.5) },
        ),
    ];

    for player in party.iter_mut() {
        player.heal();
    }
    assert_eq!(party[0].stats.lifepoints, 120);
    assert_eq!(party[1].stats.lifepoints, 170);
}

#[test]
fn pure_enum_test_polymorphic_vector_healing() {
    let mut party = vec![
        EnumPlayer::Human {
            name: "Alice".to_string(),
            lifepoints: 40,
            score: 100,
            potions: 1,
            has_medic_kit: true,
        },
        EnumPlayer::HealerNPC {
            name: "Bob".to_string(),
            lifepoints: 20,
            score: 50,
            mana_percent: percent32(1.5),
        },
    ];

    heal_all(&mut party);

    assert_eq!(party[0].lifepoints(), 120);
    assert_eq!(party[1].lifepoints(), 170);
}

#[test]
fn open_party_test_polymorphic_vector_healing() {
    let mut party: Vec<Box<dyn Player>> = vec![
        Box::new(Human {
            stats: PlayerStats { name: "Alice".to_string(), lifepoints: 40, score: 100 },
            potions: 1,
            has_medic_kit: true,
        }),
        Box::new(HealerNPC {
            stats: PlayerStats { name: "Bob".to_string(), lifepoints: 20, score: 50 },
            mana_percent: percent64(1.5),
        }),
    ];

    for player in party.iter_mut() {
        player.heal();
    }

    assert_eq!(party[0].lifepoints(), 60);
    assert_eq!(party[1].lifepoints(), 170);
}

// ---- further cases ----

#[test]
fn composed_human_uses_kit_then_potions_then_nothing() {
    let mut p = ComposedPlayer::new(
        "A".to_string(),
        0,
        7,
        PlayerKind::Human { potions: 1, has_medic_kit: true },
    );
    p.heal();
    assert_eq!(p.stats.lifepoints, 80);
    p.heal();
    assert_eq!(p.stats.lifepoints, 120);
    p.heal();
    assert_eq!(p.stats.lifepoints, 120);
    assert_eq!(p.kind, PlayerKind::Human { potions: 0, has_medic_kit: false });
    assert_eq!(p.stats.score, 7);
}

#[test]
fn berserkers_heal_only_below_threshold() {
    let mut p = ComposedPlayer::new(
        "B".to_string(),
        10,
        0,
        PlayerKind::BerserkerNPC { rage_threshold: 30 },
    );
    p.heal();
    assert_eq!(p.stats.lifepoints, 35);
    p.heal();
    assert_eq!(p.stats.lifepoints, 35);

    let mut party = vec![EnumPlayer::BerserkerNPC {
        name: "C".to_string(),
        lifepoints: 29,
        score: 0,
        rage_threshold: 30,
    }];
    heal_all(&mut party);
    heal_all(&mut party);
    assert_eq!(party[0].lifepoints(), 54);
    assert_eq!(party[0].name(), "C");

    let mut b = BerserkerNPC {
        stats: PlayerStats { name: "D".to_string(), lifepoints: 30, score: 0 },
        rage_threshold: 30,
    };
    b.heal();
    assert_eq!(b.lifepoints(), 30);
}

#[test]
fn open_party_human_keeps_its_kit() {
    let mut h = Human {
        stats: PlayerStats { name: "H".to_string(), lifepoints: 0, score: 0 },
        potions: 1,
        has_medic_kit: true,
    };
    h.heal();
    h.heal();
    h.heal();
    assert_eq!(h.lifepoints(), 120);
    assert!(h.has_medic_kit);
    assert_eq!(h.potions, 0);
    assert_eq!(h.name(), "H");
}

#[test]
fn rogues_spend_stealth_to_heal_more() {
    let mut party: Vec<Box<dyn Player>> = vec![Box::new(Rogue {
        stats: PlayerStats { name: "Shadow".to_string(), lifepoints: 35, score: 120 },
        stealth_points: 50,
        critical_percent: percent64(2.0),
    })];
    for _ in 0..5 {
        party[0].heal();
    }
    assert_eq!(party[0].lifepoints(), 35 + 15 * 4 + 5);
    assert_eq!(party[0].name(), "Shadow");
}

#[test]
fn hybrid_healing_through_the_trait() {
    let stats = HybridStats { name: "N".to_string(), lifepoints: 1, score: 2 };
    assert_eq!(stats.lifepoints, 1);
    let _static_fn: fn(&mut masterclass::hybrid::Human) = heal_player_static;
    let _dyn_fn: fn(&mut dyn masterclass::hybrid::PlayerBehavior) = heal_player_dyn;
}

#[test]
fn heal_fits_refuses_an_overflowing_heal() {
    let p = ComposedPlayer::new(
        "A".to_string(),
        u32::MAX - 79,
        0,
        PlayerKind::Human { potions: 0, has_medic_kit: true },
    );
    assert!(!p.heal_fits());
    let q = ComposedPlayer::new(
        "B".to_string(),
        u32::MAX - 80,
        0,
        PlayerKind::Human { potions: 0, has_medic_kit: true },
    );
    assert!(q.heal_fits());
    let e = EnumPlayer::BerserkerNPC { name: "C".to_string(), lifepoints: u32::MAX, score: 0, rage_threshold: 1 };
    assert!(e.heal_fits());
    let h: Box<dyn Player> = Box::new(HealerNPC {
        stats: PlayerStats { name: "D".to_string(), lifepoints: u32::MAX - 1, score: 0 },
        mana_percent: 2,
    });
    assert!(!h.heal_fits());
    let r = Rogue {
        stats: PlayerStats { name: "E".to_string(), lifepoints: u32::MAX - 5, score: 0 },
        stealth_points: 0,
        critical_percent: 0,
    };
    assert!(r.heal_fits());
}

#[test]
fn hybrid_players_heal_as_their_kind() {
    let stats = |hp: u32| HybridStats { name: "P".to_string(), lifepoints: hp, score: 0 };
    let mut human = Players::Human(HybridHuman::new(stats(10), 1, true));
    human.heal();
    human.heal();
    human.heal();
    match &human {
        Players::Human(h) => assert_eq!(h.stats.lifepoints, 130),
        _ => panic!("expected a human"),
    }
    let mut healer = Players::HealerNPC(HybridHealer::new(stats(5), 150));
    heal_player_static(&mut healer);
    heal_player_dyn(&mut healer);
    match &healer {
        Players::HealerNPC(n) => assert_eq!(n.stats.lifepoints, 305),
        _ => panic!("expected a healer"),
    }
}
