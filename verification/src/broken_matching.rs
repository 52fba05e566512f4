//! A matchmaking slot kept as loose flags and optional fields, so that
//! nothing ties them together: a cancelled match leaves its partner and
//! room behind, and the room allocator has to check for a player itself.
use vstd::prelude::*;
use vstd::string::*;

verus! {

#[derive(Clone, Debug, PartialEq)]
pub struct Player {
    pub id: u32,
    pub name: String,
}

/// One matchmaking slot, as independent fields.
pub struct MatchmakingSlot {
    pub is_searching: bool,
    pub player: Option<Player>,
    pub partner: Option<Player>,
    pub room_code: Option<String>,
}

/// The slot after `start_search(player)`.
pub open spec fn started(s: MatchmakingSlot, player: Player) -> MatchmakingSlot {
    MatchmakingSlot { is_searching: true, player: Some(player), ..s }
}

/// The slot after `cancel_search()`.
pub open spec fn cancelled(s: MatchmakingSlot) -> MatchmakingSlot {
    MatchmakingSlot { is_searching: false, player: None, ..s }
}

/// The slot after `complete_match(partner, code)`.
pub open spec fn completed(s: MatchmakingSlot, partner: Player, code: String) -> MatchmakingSlot {
    if s.is_searching {
        MatchmakingSlot {
            is_searching: false,
            partner: Some(partner),
            room_code: Some(code),
            ..s
        }
    } else {
        s
    }
}

impl MatchmakingSlot {
    /// An idle slot with nothing in it.
    pub fn new() -> (r: Self)
        ensures
            r == (MatchmakingSlot {
                is_searching: false,
                player: None,
                partner: None,
                room_code: None,
            }),
    {
        Self { is_searching: false, player: None, partner: None, room_code: None }
    }

    /// Marks the slot searching for `player`, whatever it held.
    pub fn start_search(&mut self, player: Player)
        ensures
            *final(self) == started(*old(self), player),
    {
        self.is_searching = true;
        self.player = Some(player);
    }

    /// Stops searching and drops the player, but keeps any partner and room.
    pub fn cancel_search(&mut self)
        ensures
            *final(self) == cancelled(*old(self)),
    {
        self.is_searching = false;
        self.player = None;
    }

    /// Records the partner and the room, only while searching.
    pub fn complete_match(&mut self, partner: Player, code: String)
        ensures
            *final(self) == completed(*old(self), partner, code),
    {
        if self.is_searching {
            self.partner = Some(partner);
            self.room_code = Some(code);
            self.is_searching = false;
        }
    }
}

/// The notice for a room allocated for `room_code`.
pub open spec fn room_notice(room_code: Seq<char>) -> Seq<char> {
    "Room "@ + room_code + " allocated for Ghost Match"@
}

/// One notice per slot that has a player, is not searching and has a room
/// code, in the order of the slots.
pub open spec fn room_notices(slots: Seq<MatchmakingSlot>) -> Seq<Seq<char>>
    decreases slots.len(),
{
    if slots.len() == 0 {
        seq![]
    } else {
        let prev = room_notices(slots.drop_last());
        let s = slots.last();
        if s.player is Some && !s.is_searching && s.room_code is Some {
            prev.push(room_notice(s.room_code->0@))
        } else {
            prev
        }
    }
}

/// The text of each string.
pub open spec fn texts(v: Seq<String>) -> Seq<Seq<char>> {
    v.map_values(|s: String| s@)
}

/// Allocates a room for every slot that still has its player and was
/// matched.
pub fn allocate_active_rooms(slots: &[MatchmakingSlot]) -> (rooms: Vec<String>)
    ensures
        texts(rooms@) == room_notices(slots@),
{
    let mut active_rooms: Vec<String> = Vec::new();
    let mut i: usize = 0;
    while i < slots.len()
        invariant
            i <= slots@.len(),
            texts(active_rooms@) == room_notices(slots@.take(i as int)),
        decreases slots@.len() - i,
    {
        let ghost before = active_rooms@;
        assert(slots@.take(i + 1).drop_last() =~= slots@.take(i as int));
        let slot = &slots[i];
        if slot.player.is_some() && !slot.is_searching && slot.room_code.is_some() {
            let code = slot.room_code.as_ref().unwrap();
            let mut notice = String::from_str("Room ");
            notice.append(code.as_str());
            notice.append(" allocated for Ghost Match");
            active_rooms.push(notice);
            assert(texts(active_rooms@) =~= texts(before).push(room_notice(code@)));
        }
        i += 1;
    }
    assert(slots@.take(slots@.len() as int) =~= slots@);
    active_rooms
}

/// A search that was matched and then cancelled leaves its partner and room
/// code in the slot, yet gets no room, since the slot has no player.
pub proof fn lemma_cancelled_match_gets_no_room(
    slot: MatchmakingSlot,
    alice: Player,
    bob: Player,
    code: String,
)
    ensures
        ({
            let left = cancelled(completed(started(slot, alice), bob, code));
            &&& left.player is None
            &&& left.partner == Some(bob)
            &&& left.room_code == Some(code)
            &&& room_notices(seq![left]) == Seq::<Seq<char>>::empty()
        }),
{
    let left = cancelled(completed(started(slot, alice), bob, code));
    assert(seq![left].drop_last() =~= Seq::<MatchmakingSlot>::empty());
    assert(seq![left].last() == left);
    assert(room_notices(Seq::<MatchmakingSlot>::empty()) =~= Seq::<Seq<char>>::empty());
}

/// A match that is not cancelled gets its room.
pub proof fn lemma_completed_match_gets_room(
    slot: MatchmakingSlot,
    alice: Player,
    bob: Player,
    code: String,
)
    ensures
        room_notices(seq![completed(started(slot, alice), bob, code)]) == seq![
            room_notice(code@),
        ],
{
    let m = completed(started(slot, alice), bob, code);
    assert(seq![m].drop_last() =~= Seq::<MatchmakingSlot>::empty());
    assert(seq![m].last() == m);
    assert(room_notices(Seq::<MatchmakingSlot>::empty()) =~= Seq::<Seq<char>>::empty());
    assert(room_notices(seq![m]) =~= seq![room_notice(code@)]);
}

/// The notices that one slot gives: one for its room when it has a player,
/// is not searching and has a room code, and none otherwise.
pub proof fn lemma_notice_of_one_slot(slot: MatchmakingSlot)
    ensures
        room_notices(seq![slot]) == (if slot.player is Some && !slot.is_searching
            && slot.room_code is Some {
            seq![room_notice(slot.room_code->0@)]
        } else {
            Seq::<Seq<char>>::empty()
        }),
{
    assert(seq![slot].drop_last() =~= Seq::<MatchmakingSlot>::empty());
    assert(seq![slot].last() == slot);
    assert(room_notices(Seq::<MatchmakingSlot>::empty()) == Seq::<Seq<char>>::empty());
    if slot.player is Some && !slot.is_searching && slot.room_code is Some {
        assert(Seq::<Seq<char>>::empty().push(room_notice(slot.room_code->0@)) =~= seq![
            room_notice(slot.room_code->0@),
        ]);
    }
}

/// The notices of two runs of slots one after the other are the notices of
/// the first run followed by those of the second.
pub proof fn lemma_notices_concatenate(a: Seq<MatchmakingSlot>, b: Seq<MatchmakingSlot>)
    ensures
        room_notices(a + b) == room_notices(a) + room_notices(b),
    decreases b.len(),
{
    if b.len() == 0 {
        assert(a + b =~= a);
        assert(room_notices(a) + room_notices(b) =~= room_notices(a));
    } else {
        lemma_notices_concatenate(a, b.drop_last());
        assert((a + b).drop_last() =~= a + b.drop_last());
        assert((a + b).last() == b.last());
        let x = room_notices(a);
        let y = room_notices(b.drop_last());
        let s = b.last();
        if s.player is Some && !s.is_searching && s.room_code is Some {
            assert((x + y).push(room_notice(s.room_code->0@)) =~= x + y.push(
                room_notice(s.room_code->0@),
            ));
        }
    }
}

} // verus!
