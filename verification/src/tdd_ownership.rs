//! A player whose score grows either by taking and returning the player or
//! by changing it in place.
use vstd::prelude::*;

verus! {

/// A named player with an identity and a score.
#[derive(Debug)]
pub struct Player {
    pub name: String,
    pub id: usize,
    pub score: u32,
}

impl Player {
    /// `self` with `points` more on its score.
    pub open spec fn with_points(self, points: u32) -> Player {
        Player { score: (self.score + points) as u32, ..self }
    }

    /// A new player with the identity `id` and no points. The identity comes
    /// from whoever hands them out.
    pub fn new(name: String, id: usize) -> (p: Self)
        ensures
            p.name == name,
            p.id == id,
            p.score == 0,
    {
        Self { name, id, score: 0 }
    }

    pub fn name(&self) -> (r: &str)
        ensures
            r@ == self.name@,
    {
        self.name.as_str()
    }

    pub fn set_name(&mut self, name: String)
        ensures
            *final(self) == (Player { name, ..*old(self) }),
    {
        self.name = name;
    }

    pub fn score(&self) -> (r: u32)
        ensures
            r == self.score,
    {
        self.score
    }

    /// Consumes the player and gives it back with `points` more.
    pub fn add_to_score_transformation(self, points: u32) -> (r: Self)
        requires
            self.score + points <= u32::MAX,
        ensures
            r == self.with_points(points),
            r.score == self.score + points,
    {
        Self { score: self.score + points, ..self }
    }

    /// Adds `points` to the player in place.
    pub fn add_to_score_mutation(&mut self, points: u32)
        requires
            old(self).score + points <= u32::MAX,
        ensures
            *final(self) == old(self).with_points(points),
            final(self).score == old(self).score + points,
    {
        self.score += points;
    }
}

/// Adding points twice is adding their sum once.
pub proof fn lemma_points_add_up(p: Player, a: u32, b: u32)
    requires
        p.score + a + b <= u32::MAX,
    ensures
        p.with_points(a).with_points(b) == p.with_points((a + b) as u32),
{
}

/// Adding no points leaves the player unchanged.
pub proof fn lemma_zero_points(p: Player)
    ensures
        p.with_points(0) == p,
{
}

} // verus!
