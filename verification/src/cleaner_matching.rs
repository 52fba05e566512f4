//! A matchmaking slot as an enum: each state holds exactly the data that it
//! needs, and a transition that does not apply hands the slot back.
use vstd::prelude::*;
use vstd::string::*;

verus! {

#[derive(Clone, Debug, PartialEq, Eq)]
pub struct Player {
    pub id: u32,
    pub name: String,
}

/// The state of one matchmaking slot.
#[derive(Debug, PartialEq, Eq, Clone)]
pub enum MatchmakingSlot {
    Empty,
    Searching(Player),
    Matched { player: Player, partner: Player, room_code: String },
}

impl Default for MatchmakingSlot {
    fn default() -> (r: Self)
        ensures
            r == MatchmakingSlot::Empty,
    {
        Self::Empty
    }
}

/// A transition that does not apply to the slot's state, with the slot.
#[derive(Debug, PartialEq, Eq)]
pub enum MatchmakingError {
    InvalidState(MatchmakingSlot),
}

/// The outcome of starting a search for `player`: only an empty slot starts.
pub open spec fn start_search_spec(slot: MatchmakingSlot, player: Player) -> Result<
    MatchmakingSlot,
    MatchmakingError,
> {
    match slot {
        MatchmakingSlot::Empty => Ok(MatchmakingSlot::Searching(player)),
        _ => Err(MatchmakingError::InvalidState(slot)),
    }
}

/// The outcome of cancelling a search: only a searching slot empties.
pub open spec fn cancel_search_spec(slot: MatchmakingSlot) -> Result<
    MatchmakingSlot,
    MatchmakingError,
> {
    match slot {
        MatchmakingSlot::Searching(_) => Ok(MatchmakingSlot::Empty),
        _ => Err(MatchmakingError::InvalidState(slot)),
    }
}

/// The outcome of matching with `partner` in `room_code`: only a searching
/// slot is matched, with the player that was searching.
pub open spec fn complete_match_spec(
    slot: MatchmakingSlot,
    partner: Player,
    room_code: String,
) -> Result<MatchmakingSlot, MatchmakingError> {
    match slot {
        MatchmakingSlot::Searching(player) => Ok(
            MatchmakingSlot::Matched { player, partner, room_code },
        ),
        _ => Err(MatchmakingError::InvalidState(slot)),
    }
}

impl MatchmakingSlot {
    /// Empty to Searching.
    pub fn start_search(self, player: Player) -> (r: Result<Self, MatchmakingError>)
        ensures
            r == start_search_spec(self, player),
    {
        match self {
            MatchmakingSlot::Empty => Ok(MatchmakingSlot::Searching(player)),
            invalid_state => Err(MatchmakingError::InvalidState(invalid_state)),
        }
    }

    /// Searching to Empty.
    pub fn cancel_search(self) -> (r: Result<Self, MatchmakingError>)
        ensures
            r == cancel_search_spec(self),
    {
        match self {
            MatchmakingSlot::Searching(_) => Ok(MatchmakingSlot::Empty),
            invalid_state => Err(MatchmakingError::InvalidState(invalid_state)),
        }
    }

    /// Searching to Matched.
    pub fn complete_match(self, partner: Player, room_code: String) -> (r: Result<
        Self,
        MatchmakingError,
    >)
        ensures
            r == complete_match_spec(self, partner, room_code),
    {
        match self {
            MatchmakingSlot::Searching(player) => Ok(
                MatchmakingSlot::Matched { player, partner, room_code },
            ),
            invalid_state => Err(MatchmakingError::InvalidState(invalid_state)),
        }
    }
}

/// The notice for a room allocated for `room_code`.
pub open spec fn room_notice(room_code: Seq<char>) -> Seq<char> {
    "Room "@ + room_code + " cleanly allocated"@
}

/// One notice per matched slot, in the order of the slots.
pub open spec fn room_notices(slots: Seq<MatchmakingSlot>) -> Seq<Seq<char>>
    decreases slots.len(),
{
    if slots.len() == 0 {
        seq![]
    } else {
        let prev = room_notices(slots.drop_last());
        match slots.last() {
            MatchmakingSlot::Matched { room_code, .. } => prev.push(room_notice(room_code@)),
            _ => prev,
        }
    }
}

/// The text of each string.
pub open spec fn texts(v: Seq<String>) -> Seq<Seq<char>> {
    v.map_values(|s: String| s@)
}

/// Allocates a room for every matched slot.
pub fn allocate_active_rooms(slots: &Vec<MatchmakingSlot>) -> (rooms: Vec<String>)
    ensures
        texts(rooms@) == room_notices(slots@),
{
    let mut rooms: Vec<String> = Vec::new();
    let mut i: usize = 0;
    while i < slots.len()
        invariant
            i <= slots@.len(),
            texts(rooms@) == room_notices(slots@.take(i as int)),
        decreases slots@.len() - i,
    {
        let ghost before = rooms@;
        assert(slots@.take(i + 1).drop_last() =~= slots@.take(i as int));
        match &slots[i] {
            MatchmakingSlot::Matched { room_code, .. } => {
                let mut notice = String::from_str("Room ");
                notice.append(room_code.as_str());
                notice.append(" cleanly allocated");
                rooms.push(notice);
                assert(texts(rooms@) =~= texts(before).push(room_notice(room_code@)));
            },
            _ => {},
        }
        i += 1;
    }
    assert(slots@.take(slots@.len() as int) =~= slots@);
    rooms
}

/// Starting a search and cancelling it leaves the slot empty again.
pub proof fn lemma_cancel_undoes_start(player: Player)
    ensures
        start_search_spec(MatchmakingSlot::Empty, player) matches Ok(s) && cancel_search_spec(s)
            == Ok::<MatchmakingSlot, MatchmakingError>(MatchmakingSlot::Empty),
{
}

/// A transition that does not apply hands back the slot as it was.
pub proof fn lemma_rejection_returns_slot(slot: MatchmakingSlot, p: Player, code: String)
    ensures
        start_search_spec(slot, p) is Err ==> start_search_spec(slot, p)
            == Err::<MatchmakingSlot, MatchmakingError>(MatchmakingError::InvalidState(slot)),
        cancel_search_spec(slot) is Err ==> cancel_search_spec(slot) == Err::<
            MatchmakingSlot,
            MatchmakingError,
        >(MatchmakingError::InvalidState(slot)),
        complete_match_spec(slot, p, code) is Err ==> complete_match_spec(slot, p, code) == Err::<
            MatchmakingSlot,
            MatchmakingError,
        >(MatchmakingError::InvalidState(slot)),
{
}

/// A matched slot cannot be cancelled, and an empty slot cannot be matched.
pub proof fn lemma_no_shortcuts(slot: MatchmakingSlot, p: Player, code: String)
    ensures
        slot is Matched ==> cancel_search_spec(slot) is Err,
        slot is Empty ==> complete_match_spec(slot, p, code) is Err,
{
}

/// Every notice belongs to a matched slot: there are never more notices than
/// matched slots, and a party without matched slots gets none.
pub proof fn lemma_rooms_only_for_matches(slots: Seq<MatchmakingSlot>)
    ensures
        room_notices(slots).len() <= slots.len(),
        (forall|i: int| 0 <= i < slots.len() ==> !(#[trigger] slots[i] is Matched))
            ==> room_notices(slots).len() == 0,
    decreases slots.len(),
{
    if slots.len() > 0 {
        lemma_rooms_only_for_matches(slots.drop_last());
        if forall|i: int| 0 <= i < slots.len() ==> !(#[trigger] slots[i] is Matched) {
            assert forall|i: int| 0 <= i < slots.drop_last().len() implies !(
            #[trigger] slots.drop_last()[i] is Matched) by {
                assert(slots.drop_last()[i] == slots[i]);
            }
            assert(!(slots[slots.len() - 1] is Matched));
        }
    }
}

/// Each transition applies to exactly one state: a search starts only from
/// an empty slot, is cancelled or matched only while searching, and the slot
/// it gives is the next one for the same player. A slot that is searching or
/// matched is never taken over by another player's search.
pub proof fn lemma_one_state_each(slot: MatchmakingSlot, p: Player, code: String)
    ensures
        start_search_spec(slot, p) is Ok <==> slot is Empty,
        start_search_spec(slot, p) matches Ok(t) ==> t == MatchmakingSlot::Searching(p),
        cancel_search_spec(slot) is Ok <==> slot is Searching,
        cancel_search_spec(slot) matches Ok(t) ==> t is Empty,
        complete_match_spec(slot, p, code) is Ok <==> slot is Searching,
        complete_match_spec(slot, p, code) matches Ok(t) ==> t == (MatchmakingSlot::Matched {
            player: slot->Searching_0,
            partner: p,
            room_code: code,
        }),
{
}

/// The notices that one slot gives: one for a matched slot, none otherwise.
pub proof fn lemma_notice_of_one_slot(slot: MatchmakingSlot)
    ensures
        room_notices(seq![slot]) == (match slot {
            MatchmakingSlot::Matched { room_code, .. } => seq![room_notice(room_code@)],
            _ => Seq::<Seq<char>>::empty(),
        }),
{
    assert(seq![slot].drop_last() =~= Seq::<MatchmakingSlot>::empty());
    assert(seq![slot].last() == slot);
    assert(room_notices(Seq::<MatchmakingSlot>::empty()) == Seq::<Seq<char>>::empty());
    if let MatchmakingSlot::Matched { room_code, .. } = slot {
        assert(Seq::<Seq<char>>::empty().push(room_notice(room_code@)) =~= seq![
            room_notice(room_code@),
        ]);
    }
}

/// The notices of two runs of slots one after the other are the notices of
/// the first run followed by those of the second: every matched slot gets
/// its notice, in the order of the slots.
pub proof fn lemma_notices_concatenate(a: Seq<MatchmakingSlot>, b: Seq<MatchmakingSlot>)
    ensures
        room_notices(a + b) == room_notices(a) + room_notices(b),
    decreases b.len(),
{
    if b.len() == 0 {
        assert(a + b =~= a);
        assert(room_notices(a) + room_notices(b) =~= room_notices(a));
    } else {
        lemma_notices_concatenate(a, b.drop_last());
        assert((a + b).drop_last() =~= a + b.drop_last());
        assert((a + b).last() == b.last());
        let x = room_notices(a);
        let y = room_notices(b.drop_last());
        match b.last() {
            MatchmakingSlot::Matched { room_code, .. } => {
                assert((x + y).push(room_notice(room_code@)) =~= x + y.push(
                    room_notice(room_code@),
                ));
            },
            _ => {},
        }
    }
}

} // verus!
