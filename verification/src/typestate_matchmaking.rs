//! A matchmaking slot whose state is part of its type, so that only the
//! transitions of that state can be called at all.
use vstd::prelude::*;
use vstd::string::*;

verus! {

#[derive(Clone, Debug, PartialEq, Eq)]
pub struct Player {
    pub id: u32,
    pub name: String,
}

/// State: no player is currently searching.
#[derive(Debug, Clone, PartialEq, Eq)]
pub struct Empty;

/// State: a player is searching for a match.
#[derive(Debug, Clone, PartialEq, Eq)]
pub struct Searching {
    player: Player,
}

impl Searching {
    pub closed spec fn searcher(self) -> Player {
        self.player
    }
}

/// State: two players have been matched into a room.
#[derive(Debug, Clone, PartialEq, Eq)]
pub struct Matched {
    player: Player,
    partner: Player,
    room_code: String,
}

impl Matched {
    pub closed spec fn first(self) -> Player {
        self.player
    }

    pub closed spec fn second(self) -> Player {
        self.partner
    }

    pub closed spec fn room(self) -> Seq<char> {
        self.room_code@
    }
}

/// A matchmaking slot in the state `State`.
#[derive(Debug, Clone, PartialEq, Eq)]
pub struct MatchmakingSlot<State> {
    state: State,
}

impl<State> View for MatchmakingSlot<State> {
    type V = State;

    closed spec fn view(&self) -> State {
        self.state
    }
}

impl MatchmakingSlot<Empty> {
    pub fn new() -> (r: Self)
        ensures
            r@ == Empty,
    {
        MatchmakingSlot { state: Empty }
    }

    /// Empty to Searching.
    pub fn start_search(self, player: Player) -> (r: MatchmakingSlot<Searching>)
        ensures
            r@.searcher() == player,
    {
        MatchmakingSlot { state: Searching { player } }
    }
}

impl Default for MatchmakingSlot<Empty> {
    fn default() -> (r: Self)
        ensures
            r@ == Empty,
    {
        Self::new()
    }
}

impl MatchmakingSlot<Searching> {
    /// Searching to Empty.
    pub fn cancel_search(self) -> (r: MatchmakingSlot<Empty>)
        ensures
            r@ == Empty,
    {
        MatchmakingSlot { state: Empty }
    }

    /// Searching to Matched, with the player that was searching.
    pub fn complete_match(self, partner: Player, room_code: String) -> (r: MatchmakingSlot<
        Matched,
    >)
        ensures
            r@.first() == self@.searcher(),
            r@.second() == partner,
            r@.room() == room_code@,
    {
        MatchmakingSlot { state: Matched { player: self.state.player, partner, room_code } }
    }

    pub fn player(&self) -> (r: &Player)
        ensures
            *r == self@.searcher(),
    {
        &self.state.player
    }
}

impl MatchmakingSlot<Matched> {
    pub fn player(&self) -> (r: &Player)
        ensures
            *r == self@.first(),
    {
        &self.state.player
    }

    pub fn partner(&self) -> (r: &Player)
        ensures
            *r == self@.second(),
    {
        &self.state.partner
    }

    pub fn room_code(&self) -> (r: &str)
        ensures
            r@ == self@.room(),
    {
        self.state.room_code.as_str()
    }
}

/// The notice for a room allocated for `room_code`.
pub open spec fn room_notice(room_code: Seq<char>) -> Seq<char> {
    "Room "@ + room_code + " cleanly allocated"@
}

/// Allocates a room for every slot, each of which is matched by its type.
pub fn allocate_active_rooms(slots: &[MatchmakingSlot<Matched>]) -> (rooms: Vec<String>)
    ensures
        rooms@.len() == slots@.len(),
        forall|i: int| 0 <= i < slots@.len() ==> (#[trigger] rooms@[i])@ == room_notice(slots@[i]@.room()),
{
    let mut rooms: Vec<String> = Vec::new();
    let mut i: usize = 0;
    while i < slots.len()
        invariant
            i <= slots@.len(),
            rooms@.len() == i,
            forall|j: int| 0 <= j < i ==> (#[trigger] rooms@[j])@ == room_notice(slots@[j]@.room()),
        decreases slots@.len() - i,
    {
        let mut notice = String::from_str("Room ");
        notice.append(slots[i].room_code());
        notice.append(" cleanly allocated");
        rooms.push(notice);
        i += 1;
    }
    rooms
}

} // verus!
