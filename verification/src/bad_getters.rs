//! A player whose achievements are read through a narrow API rather than
//! handed out.
use vstd::prelude::*;
use vstd::string::*;

use crate::text::trim_spec;

verus! {

/// Whether `x` occurs in `v`.
pub fn slice_contains(v: &[u32], x: u32) -> (r: bool)
    ensures
        r == v@.contains(x),
{
    let mut i: usize = 0;
    while i < v.len()
        invariant
            i <= v@.len(),
            forall|j: int| 0 <= j < i ==> v@[j] != x,
        decreases v@.len() - i,
    {
        if v[i] == x {
            return true;
        }
        i += 1;
    }
    false
}

/// A named player with a score and the ids of the achievements it holds.
#[derive(Debug)]
pub struct Player {
    pub name: String,
    pub score: u32,
    pub achievements: Vec<u32>,
}

impl Player {
    pub open spec fn name_view(&self) -> Seq<char> {
        self.name@
    }

    pub open spec fn points(&self) -> u32 {
        self.score
    }

    /// The achievements, in the order they were unlocked.
    pub open spec fn achievement_list(&self) -> Seq<u32> {
        self.achievements@
    }

    /// A player that already holds achievements 42 and 64.
    pub fn loaded_for_test(name: &str) -> (p: Self)
        ensures
            p.name_view() == name@,
            p.points() == 0,
            p.achievement_list() == seq![42u32, 64u32],
    {
        let mut achievements = Vec::new();
        achievements.push(42);
        achievements.push(64);
        Player { name: String::from_str(name), score: 0, achievements }
    }

    pub fn unlock_achievement(&mut self, p0: u32)
        ensures
            final(self).achievement_list() == old(self).achievement_list().push(p0),
            final(self).name_view() == old(self).name_view(),
            final(self).points() == old(self).points(),
    {
        self.achievements.push(p0);
    }

    pub fn achievements(&self) -> (r: &[u32])
        ensures
            r@ == self.achievement_list(),
    {
        self.achievements.as_slice()
    }

    pub fn achievement_count(&self) -> (r: usize)
        ensures
            r == self.achievement_list().len(),
    {
        self.achievements.len()
    }

    pub fn has_unlocked_achievement(&self, achievement_id: u32) -> (r: bool)
        ensures
            r == self.achievement_list().contains(achievement_id),
    {
        slice_contains(self.achievements.as_slice(), achievement_id)
    }

    /// A new player without points or achievements. A name that is empty
    /// once trimmed is refused.
    pub fn new(name: &str) -> (p: Self)
        requires
            trim_spec(name@).len() > 0,
        ensures
            p.name_view() == name@,
            p.points() == 0,
            p.achievement_list() == Seq::<u32>::empty(),
    {
        Player { name: String::from_str(name), score: 0, achievements: Vec::new() }
    }

    pub fn add_to_score(&mut self, points: u32)
        requires
            old(self).points() + points <= u32::MAX,
        ensures
            final(self).points() == old(self).points() + points,
            final(self).name_view() == old(self).name_view(),
            final(self).achievement_list() == old(self).achievement_list(),
    {
        self.score += points;
    }
}

/// An unlocked achievement is held afterwards, and the count grows by one.
pub proof fn lemma_unlock_is_held(before: Seq<u32>, id: u32)
    ensures
        before.push(id).contains(id),
        before.push(id).len() == before.len() + 1,
{
    assert(before.push(id)[before.len() as int] == id);
}

} // verus!
