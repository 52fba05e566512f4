use masterclass::broken_matching::{
    allocate_active_rooms as allocate_loose_rooms, MatchmakingSlot as LooseSlot,
    Player as LoosePlayer,
};
use masterclass::cleaner_matching::{
    allocate_active_rooms, MatchmakingError, MatchmakingSlot, Player,
};
use masterclass::typestate_matchmaking::{
    allocate_active_rooms as allocate_matched_rooms, Empty, MatchmakingSlot as TypedSlot,
    Player as TypedPlayer,
};

fn setup_players() -> (Player, Player) {
    (Player { id: 1, name: "Alice".to_string() }, Player { id: 2, name: "Bob".to_string() })
}

#[test]
fn cleaner_matching_test_complete_clean_lifecycle() {
    let (alice, bob) = setup_players();
    let expected_alice = alice.clone();
    let expected_bob = bob.clone();

    let slot = MatchmakingSlot::default();
    assert_eq!(slot, MatchmakingSlot::Empty);

    let slot = slot
        .start_search(alice)
        .expect("start_search should succeed when slot is Empty");

    let matched_slot = slot
        .complete_match(bob, "ROOM-123".to_string())
        .expect("complete_match should succeed when slot is Searching");
    let MatchmakingSlot::Matched { player: p1, partner: p2, room_code: r } = matched_slot else {
        panic!("complete_match should return a Matched slot, got: {matched_slot:?}")
    };
    assert_eq!(p1, expected_alice);
    assert_eq!(p2, expected_bob);
    assert_eq!(r, "ROOM-123");
}

#[test]
fn test_cant_match_empty() {
    let (_alice, bob) = setup_players();

    let slot = MatchmakingSlot::default();
    slot.complete_match(bob, "ROOM-123".to_string())
        .expect_err("complete_match should fail when slot is Empty");
}

#[test]
fn test_cant_cancel_matched() {
    let (alice, bob) = setup_players();
    let expected_alice = alice.clone();
    let expected_bob = bob.clone();

    let slot = MatchmakingSlot::default()
        .start_search(alice)
        .expect("start_search should succeed when slot is Empty")
        .complete_match(bob.clone(), "ROOM-123".to_string())
        .expect("complete_match should succeed when slot is Searching");

    let MatchmakingError::InvalidState(recovered_slot) =
        slot.cancel_search().expect_err("canceling after match should fail");
    let MatchmakingSlot::Matched { player: p1, partner: p2, room_code: r } = recovered_slot else {
        panic!("cancel_search should return a Matched slot, got: {recovered_slot:?}");
    };
    assert_eq!(p1, expected_alice);
    assert_eq!(p2, expected_bob);
    assert_eq!(r, "ROOM-123");
}

#[test]
fn cleaner_matching_test_system_loop_allocates_ghost_rooms() {
    let (alice, bob) = setup_players();

    let slot = MatchmakingSlot::default();
    let slot = slot.start_search(alice).expect("start_search should succeed when slot is Empty");
    let slot = slot
        .complete_match(bob, "ROOM-404".to_string())
        .expect("complete_match should succeed when slot is Searching");

    let err = slot.cancel_search().expect_err("canceling after match should fail");
    let MatchmakingError::InvalidState(recovered_slot) = err;

    let cluster_slots = vec![recovered_slot];
    let active_rooms = allocate_active_rooms(&cluster_slots);

    assert_eq!(
        active_rooms.len(),
        1,
        "CRITICAL FAULT: The system allocated a server room for an empty slot!"
    );
}

fn setup_loose_players() -> (LoosePlayer, LoosePlayer) {
    (
        LoosePlayer { id: 1, name: "Alice".to_string() },
        LoosePlayer { id: 2, name: "Bob".to_string() },
    )
}

#[test]
fn test_happy_path_lifecycle() {
    let (alice, bob) = setup_loose_players();
    let mut slot = LooseSlot::new();

    slot.start_search(alice.clone());
    assert!(slot.is_searching);
    assert_eq!(slot.player.as_ref(), Some(&alice));

    slot.complete_match(bob.clone(), "ROOM-123".to_string());
    assert!(!slot.is_searching);
    assert_eq!(slot.partner.as_ref(), Some(&bob));
    assert_eq!(slot.room_code.as_deref(), Some("ROOM-123"));
}

#[test]
fn test_exploit_ghost_partner_state() {
    let (alice, bob) = setup_loose_players();
    let mut slot = LooseSlot::new();

    slot.start_search(alice);
    slot.complete_match(bob, "ROOM-123".to_string());

    slot.cancel_search();

    assert_eq!(slot.is_searching, false);
    assert!(slot.player.is_none());

    assert!(slot.partner.is_some(), "LEAK: Ghost partner remains inside an empty slot!");
    assert!(slot.room_code.is_some(), "LEAK: Room code remains active for an idle slot!");
}

#[test]
fn test_exploit_match_without_search() {
    let (_, bob) = setup_loose_players();
    let mut slot = LooseSlot::new();

    slot.complete_match(bob.clone(), "ROOM-666".to_string());

    assert!(!slot.is_searching);
    assert!(slot.player.is_none());
    assert!(slot.partner.is_none());
    assert!(slot.room_code.is_none());
}

#[test]
fn broken_matching_test_system_loop_allocates_ghost_rooms() {
    let alice = LoosePlayer { id: 1, name: "Alice".to_string() };
    let bob = LoosePlayer { id: 2, name: "Bob".to_string() };

    let mut slot = LooseSlot::new();
    slot.start_search(alice);
    slot.complete_match(bob, "ROOM-404".to_string());

    slot.cancel_search();

    let cluster_slots = vec![slot];

    let active_rooms = allocate_loose_rooms(&cluster_slots);

    assert_eq!(
        active_rooms.len(),
        0,
        "CRITICAL FAULT: The system allocated a server room for an empty slot!"
    );
}

fn setup_typed_players() -> (TypedPlayer, TypedPlayer) {
    (
        TypedPlayer { id: 1, name: "Alice".to_string() },
        TypedPlayer { id: 2, name: "Bob".to_string() },
    )
}

#[test]
fn typestate_matchmaking_test_complete_clean_lifecycle() {
    let (alice, bob) = setup_typed_players();
    let expected_alice = alice.clone();
    let expected_bob = bob.clone();

    let slot = TypedSlot::<Empty>::new();

    let slot = slot.start_search(alice);
    assert_eq!(slot.player(), &expected_alice);

    let matched_slot = slot.complete_match(bob, "ROOM-123".to_string());

    assert_eq!(matched_slot.player(), &expected_alice);
    assert_eq!(matched_slot.partner(), &expected_bob);
    assert_eq!(matched_slot.room_code(), "ROOM-123");
}

#[test]
fn test_cancel_search_returns_to_empty() {
    let (alice, next_player) = setup_typed_players();

    let slot = TypedSlot::<Empty>::new().start_search(alice);
    let slot: TypedSlot<Empty> = slot.cancel_search();

    let _slot = slot.start_search(next_player);
}

#[test]
fn test_allocate_active_rooms() {
    let (alice, bob) = setup_typed_players();
    let matched = TypedSlot::<Empty>::new()
        .start_search(alice)
        .complete_match(bob, "ROOM-404".to_string());

    let cluster_slots = vec![matched];
    let active_rooms = allocate_matched_rooms(&cluster_slots);

    assert_eq!(active_rooms.len(), 1);
    assert_eq!(active_rooms[0], "Room ROOM-404 cleanly allocated");
}

// ---- further cases ----

#[test]
fn rooms_only_for_matched_slots() {
    let (alice, bob) = setup_players();
    let searching = MatchmakingSlot::Searching(alice.clone());
    let matched = MatchmakingSlot::Matched {
        player: alice,
        partner: bob,
        room_code: "R1".to_string(),
    };
    let rooms = allocate_active_rooms(&vec![MatchmakingSlot::Empty, searching, matched]);
    assert_eq!(rooms, vec!["Room R1 cleanly allocated".to_string()]);
}

#[test]
fn cancel_undoes_start() {
    let (alice, _) = setup_players();
    let slot = MatchmakingSlot::Empty.start_search(alice).unwrap().cancel_search().unwrap();
    assert_eq!(slot, MatchmakingSlot::Empty);
    let err = MatchmakingSlot::Empty.cancel_search().unwrap_err();
    assert_eq!(err, MatchmakingError::InvalidState(MatchmakingSlot::Empty));
}

#[test]
fn loose_slots_get_rooms_only_with_a_player() {
    let (alice, bob) = setup_loose_players();
    let mut cancelled = LooseSlot::new();
    cancelled.start_search(alice.clone());
    cancelled.complete_match(bob.clone(), "ROOM-404".to_string());
    cancelled.cancel_search();
    let mut matched = LooseSlot::new();
    matched.start_search(alice);
    matched.complete_match(bob, "ROOM-7".to_string());
    let rooms = allocate_loose_rooms(&[cancelled, LooseSlot::new(), matched]);
    assert_eq!(rooms, vec!["Room ROOM-7 allocated for Ghost Match".to_string()]);
}

#[test]
fn typed_default_is_empty() {
    let (alice, _) = setup_typed_players();
    let slot: TypedSlot<Empty> = Default::default();
    assert_eq!(slot, TypedSlot::<Empty>::new());
    let searching = slot.start_search(alice.clone());
    assert_eq!(searching.player(), &alice);
}
