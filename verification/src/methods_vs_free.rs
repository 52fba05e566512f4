//! Comparing two players, once as a method and once as a free function.
use vstd::prelude::*;

use crate::bad_getters::slice_contains;

verus! {

/// A named player with a score and the ids of the achievements it holds.
#[derive(Debug, PartialEq)]
pub struct Player {
    pub name: String,
    pub score: u32,
    pub achievements: Vec<u32>,
}

/// How the player a method is called on fares against another.
#[derive(Debug, PartialEq)]
pub enum WinningOutcome1 {
    Winner,
    Loser,
    Draw,
}

/// Which of two players wins.
#[derive(Debug, PartialEq)]
pub enum WinningOutcome {
    FirstPlayerWins,
    SecondPlayerWins,
    Draw,
}

/// How a player with `mine` points fares against one with `theirs`.
pub open spec fn standing(mine: u32, theirs: u32) -> WinningOutcome1 {
    if mine > theirs {
        WinningOutcome1::Winner
    } else if mine < theirs {
        WinningOutcome1::Loser
    } else {
        WinningOutcome1::Draw
    }
}

/// Which of two players, with `a` and `b` points, wins.
pub open spec fn winner_of(a: u32, b: u32) -> WinningOutcome {
    if a > b {
        WinningOutcome::FirstPlayerWins
    } else if b > a {
        WinningOutcome::SecondPlayerWins
    } else {
        WinningOutcome::Draw
    }
}

impl Player {
    pub open spec fn name_view(&self) -> Seq<char> {
        self.name@
    }

    pub open spec fn points(&self) -> u32 {
        self.score
    }

    /// The achievements, in the order they were unlocked.
    pub open spec fn achievement_list(&self) -> Seq<u32> {
        self.achievements@
    }

    pub fn compute_winner(&self, p0: &Player) -> (r: WinningOutcome1)
        ensures
            r == standing(self.points(), p0.points()),
    {
        if self.score > p0.score {
            WinningOutcome1::Winner
        } else if self.score < p0.score {
            WinningOutcome1::Loser
        } else {
            WinningOutcome1::Draw
        }
    }

    /// A new player without points or achievements.
    pub fn new(name: String) -> (p: Self)
        ensures
            p.name_view() == name@,
            p.points() == 0,
            p.achievement_list() == Seq::<u32>::empty(),
    {
        Self { name, score: 0, achievements: Vec::new() }
    }

    pub fn score(&self) -> (r: u32)
        ensures
            r == self.points(),
    {
        self.score
    }

    /// Consumes the player and gives it back with `points` more.
    pub fn add_to_score_transformation(self, points: u32) -> (r: Self)
        requires
            self.points() + points <= u32::MAX,
        ensures
            r.points() == self.points() + points,
            r.name_view() == self.name_view(),
            r.achievement_list() == self.achievement_list(),
    {
        Self { score: self.score + points, ..self }
    }

    /// Adds `points` to the player in place.
    pub fn add_to_score_mutation(&mut self, points: u32)
        requires
            old(self).points() + points <= u32::MAX,
        ensures
            final(self).points() == old(self).points() + points,
            final(self).name_view() == old(self).name_view(),
            final(self).achievement_list() == old(self).achievement_list(),
    {
        self.score += points;
    }

    /// A player that already holds achievements 42 and 64.
    pub fn loaded_for_test(name: &str) -> (p: Self)
        ensures
            p.name_view() == name@,
            p.points() == 0,
            p.achievement_list() == seq![42u32, 64u32],
    {
        let mut achievements = Vec::new();
        achievements.push(42);
        achievements.push(64);
        Player { name: String::from_str(name), score: 0, achievements }
    }

    pub fn unlock_achievement(&mut self, p0: u32)
        ensures
            final(self).achievement_list() == old(self).achievement_list().push(p0),
            final(self).name_view() == old(self).name_view(),
            final(self).points() == old(self).points(),
    {
        self.achievements.push(p0);
    }

    /// A copy of the achievements, which later unlocks do not change.
    pub fn achievements(&self) -> (r: Vec<u32>)
        ensures
            r@ == self.achievement_list(),
    {
        self.achievements.clone()
    }

    pub fn achievement_count(&self) -> (r: usize)
        ensures
            r == self.achievement_list().len(),
    {
        self.achievements.len()
    }

    pub fn has_unlocked_achievement(&self, achievement_id: u32) -> (r: bool)
        ensures
            r == self.achievement_list().contains(achievement_id),
    {
        slice_contains(self.achievements.as_slice(), achievement_id)
    }
}

/// Which of `a` and `b` has the higher score.
pub fn compute_winner(a: &Player, b: &Player) -> (r: WinningOutcome)
    ensures
        r == winner_of(a.points(), b.points()),
{
    if a.score > b.score {
        WinningOutcome::FirstPlayerWins
    } else if b.score > a.score {
        WinningOutcome::SecondPlayerWins
    } else {
        WinningOutcome::Draw
    }
}

/// Swapping the players turns a win into a loss and keeps a draw.
pub proof fn lemma_standing_swaps(a: u32, b: u32)
    ensures
        (standing(a, b) == WinningOutcome1::Winner) == (standing(b, a) == WinningOutcome1::Loser),
        (standing(a, b) == WinningOutcome1::Draw) == (standing(b, a) == WinningOutcome1::Draw),
        (standing(a, b) == WinningOutcome1::Draw) == (a == b),
{
}

/// Swapping the players swaps the winner and keeps a draw.
pub proof fn lemma_winner_swaps(a: u32, b: u32)
    ensures
        (winner_of(a, b) == WinningOutcome::FirstPlayerWins) == (winner_of(b, a)
            == WinningOutcome::SecondPlayerWins),
        (winner_of(a, b) == WinningOutcome::Draw) == (winner_of(b, a) == WinningOutcome::Draw),
{
}

/// The method and the free function agree: the player the method is called
/// on wins exactly when it is the first player and the free function says
/// the first player wins.
pub proof fn lemma_method_agrees_with_function(a: u32, b: u32)
    ensures
        (standing(a, b) == WinningOutcome1::Winner) == (winner_of(a, b)
            == WinningOutcome::FirstPlayerWins),
        (standing(a, b) == WinningOutcome1::Loser) == (winner_of(a, b)
            == WinningOutcome::SecondPlayerWins),
        (standing(a, b) == WinningOutcome1::Draw) == (winner_of(a, b) == WinningOutcome::Draw),
{
}

/// The higher score wins: the first player wins exactly when it has more
/// points, the second exactly when it has more.
pub proof fn lemma_higher_score_wins(a: u32, b: u32)
    ensures
        (winner_of(a, b) == WinningOutcome::FirstPlayerWins) == (a > b),
        (winner_of(a, b) == WinningOutcome::SecondPlayerWins) == (b > a),
        (standing(a, b) == WinningOutcome1::Winner) == (a > b),
        (standing(a, b) == WinningOutcome1::Loser) == (a < b),
{
}

} // verus!
