use masterclass::bad_getters::Player as ScoredPlayer;
use masterclass::diagram::{addToMyStrings, addToMyStrings2, Player as NamedPlayer};
use masterclass::methods_vs_free::{
    compute_winner, Player as RankedPlayer, WinningOutcome, WinningOutcome1,
};
use masterclass::tdd_ownership::Player;

fn add_to_score(player: &mut Player, points: u32) {
    player.score += points;
}

#[test]
fn create_player() {
    let player = Player::new("Fred".to_string(), 1);
    assert_eq!(player.score(), 0);
    assert_eq!(player.name, "Fred".to_string());
}

#[test]
fn main_add_to_score_test_1() {
    let mut player = Player::new("Fred".to_string(), 1);
    add_to_score(&mut player, 42);
    assert_eq!(player.score, 42);
}

#[test]
fn main_add_to_score_2() {
    let mut player = Player::new("Fred".to_string(), 1);
    player.add_to_score_mutation(42);
    assert_eq!(player.score, 42);
}

#[test]
fn main_add_to_score_3() {
    let player = Player::new("Fred".to_string(), 1);
    let player = player.add_to_score_transformation(42);
    assert_eq!(player.score, 42);
}

#[test]
fn main_player_score_increases() {
    let mut player = Player::new("Fred".to_string(), 1);
    player.add_to_score_mutation(10);
    player.add_to_score_mutation(5);
    assert_eq!(player.score, 15);
}

#[test]
fn score_starts_at_zero() {
    let player = ScoredPlayer::new("Player");
    assert_eq!(player.score, 0);
}

#[test]
fn main_add_achievement_awkward_scopes() {
    let mut player = ScoredPlayer::loaded_for_test("Player");

    let achievements_len_before;
    {
        let achievements_before = player.achievements();
        achievements_len_before = achievements_before.len();
    }

    player.unlock_achievement(48);

    let achievements_after = player.achievements();
    assert_eq!(achievements_len_before + 1, achievements_after.len());
    assert!(achievements_after.contains(&48));
}

#[test]
fn main_add_achievement_awkward_drop() {
    let mut player = ScoredPlayer::loaded_for_test("Player");

    let achievements_before = player.achievements();
    let temp_len = achievements_before.len();
    drop(achievements_before);

    player.unlock_achievement(48);
    let achievements_after = player.achievements();

    assert_eq!(temp_len + 1, achievements_after.len());
    assert!(achievements_after.contains(&48));
}

#[test]
fn main_add_achievement_narrowed_api() {
    let mut player = ScoredPlayer::loaded_for_test("Player");
    let achievement_count_before = player.achievement_count();
    player.unlock_achievement(48);
    let achievement_count_after = player.achievement_count();
    assert_eq!(achievement_count_before + 1, achievement_count_after);
    assert!(player.has_unlocked_achievement(48));
}

fn add_ranked_score(player: &mut RankedPlayer, points: u32) {
    player.score += points;
}

#[test]
fn ranked_add_to_score_test_1() {
    let mut player = RankedPlayer::new("Fred".to_string());
    add_ranked_score(&mut player, 42);
    assert_eq!(player.score, 42);
}

#[test]
fn ranked_add_to_score_2() {
    let mut player = RankedPlayer::new("Fred".to_string());
    player.add_to_score_mutation(42);
    assert_eq!(player.score, 42);
}

#[test]
fn ranked_add_to_score_3() {
    let player = RankedPlayer::new("Fred".to_string());
    let player = player.add_to_score_transformation(42);
    assert_eq!(player.score, 42);
}

#[test]
fn ranked_player_score_increases() {
    let mut player = RankedPlayer::new("Fred".to_string());
    player.add_to_score_mutation(10);
    player.add_to_score_mutation(5);
    assert_eq!(player.score, 15);
}

#[test]
fn main_add_achievement_broken() {
    let mut player = RankedPlayer::loaded_for_test("Player");

    let achievements_before = player.achievements();
    player.unlock_achievement(48);
    let achievements_after = player.achievements();
    assert_eq!(achievements_before.len() + 1, achievements_after.len());
    assert!(achievements_after.contains(&48));
}

#[test]
fn ranked_add_achievement_awkward_scopes() {
    let mut player = RankedPlayer::loaded_for_test("Player");

    let achievements_len_before;
    {
        let achievements_before = player.achievements();
        achievements_len_before = achievements_before.len();
    }

    player.unlock_achievement(48);

    let achievements_after = player.achievements();
    assert_eq!(achievements_len_before + 1, achievements_after.len());
    assert!(achievements_after.contains(&48));
}

#[test]
fn ranked_add_achievement_awkward_drop() {
    let mut player = RankedPlayer::loaded_for_test("Player");

    let achievements_before = player.achievements();
    let temp_len = achievements_before.len();
    drop(achievements_before);

    player.unlock_achievement(48);
    let achievements_after = player.achievements();

    assert_eq!(temp_len + 1, achievements_after.len());
    assert!(achievements_after.contains(&48));
}

#[test]
fn ranked_add_achievement_narrowed_api() {
    let mut player = RankedPlayer::loaded_for_test("Player");
    let achievement_count_before = player.achievement_count();
    player.unlock_achievement(48);
    let achievement_count_after = player.achievement_count();
    assert_eq!(achievement_count_before + 1, achievement_count_after);
    assert!(player.has_unlocked_achievement(48));
}

fn boost(p: &mut RankedPlayer, points: u32) {
    p.score += points;
}

#[test]
fn player_can_boost_score() {
    let mut player = RankedPlayer::new("Alice".to_string());
    boost(&mut player, 10);
    assert_eq!(player.score, 10);
}

#[test]
fn winner_method() {
    let mut player1 = RankedPlayer::new("Player1".to_string());
    let mut player2 = RankedPlayer::new("Player2".to_string());
    player1.add_to_score_mutation(100);
    player2.add_to_score_mutation(50);
    assert_eq!(player1.compute_winner(&player2), WinningOutcome1::Winner);
}

#[test]
fn winner_free_function() {
    let mut player1 = RankedPlayer::new("Player1".to_string());
    let mut player2 = RankedPlayer::new("Player2".to_string());
    player1.add_to_score_mutation(100);
    player2.add_to_score_mutation(50);
    assert_eq!(compute_winner(&player1, &player2), WinningOutcome::FirstPlayerWins);
}

// ---- further cases ----

#[test]
fn winners_swap_with_the_players() {
    let mut a = RankedPlayer::new("A".to_string());
    let b = RankedPlayer::new("B".to_string());
    assert_eq!(a.compute_winner(&b), WinningOutcome1::Draw);
    assert_eq!(compute_winner(&a, &b), WinningOutcome::Draw);
    a.add_to_score_mutation(1);
    assert_eq!(b.compute_winner(&a), WinningOutcome1::Loser);
    assert_eq!(compute_winner(&b, &a), WinningOutcome::SecondPlayerWins);
    assert_eq!(compute_winner(&a, &b), WinningOutcome::FirstPlayerWins);
}

#[test]
fn scores_add_up_either_way() {
    let a = Player::new("A".to_string(), 7).add_to_score_transformation(10).add_to_score_transformation(16);
    let mut b = Player::new("A".to_string(), 7);
    b.add_to_score_mutation(26);
    assert_eq!(a.score, b.score);
    assert_eq!(a.score, 26);
    assert_eq!(a.id, 7);
    assert_eq!(a.name(), "A");
}

#[test]
fn renaming_keeps_score_and_id() {
    let mut p = Player::new("Old".to_string(), 3);
    p.add_to_score_mutation(5);
    p.set_name("New".to_string());
    assert_eq!(p.name(), "New");
    assert_eq!((p.id, p.score), (3, 5));
}

#[test]
fn new_player_has_no_achievements() {
    let mut p = ScoredPlayer::new(" Zed ");
    assert_eq!(p.achievement_count(), 0);
    assert!(!p.has_unlocked_achievement(42));
    p.add_to_score(100);
    assert_eq!(p.score, 100);
    p.unlock_achievement(44);
    assert!(p.has_unlocked_achievement(44));
    assert_eq!(p.achievements(), &[44]);
    let loaded = RankedPlayer::loaded_for_test("Q");
    assert_eq!(loaded.achievements(), vec![42, 64]);
    assert_eq!(loaded.score(), 0);
}

#[test]
fn named_player_and_borrowed_strings() {
    let p = NamedPlayer::new("fred");
    assert_eq!(p.name, "fred");
    let mut s = String::from("hello");
    addToMyStrings2(&s);
    addToMyStrings(&mut s);
    assert_eq!(s, "hello");
}
