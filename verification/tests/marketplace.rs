use masterclass::flat_marketplace::{
    Item, Player, RefundReason, TradeError, TradeWorkflow,
};
use masterclass::nested_marketplace::{
    EscrowState, Item as NestedItem, NegotiationState, Player as NestedPlayer,
    RefundReason as NestedReason, ResolutionState, TradeContext, TradeError as NestedError,
    TradeWorkflow as NestedWorkflow,
};
use masterclass::typestate_marketplace::{
    Draft, Item as TypedItem, Player as TypedPlayer, RefundReason as TypedReason, Trade,
};

fn setup_entities() -> (Player, Player, Item) {
    let seller = Player { id: 1, name: "Merchant_Bob".to_string() };
    let buyer = Player { id: 2, name: "Slayer_Alice".to_string() };
    let item = Item { id: 99, name: "Excalibur".to_string() };
    (seller, buyer, item)
}

#[test]
fn test_flat_happy_path_with_results() -> Result<(), TradeError> {
    let (seller, buyer, item) = setup_entities();

    let trade = TradeWorkflow::new(seller, item, 500)
        .offer_to_buyer(buyer)?
        .accept()?
        .request_funds()?
        .receive_funds()?
        .lock_in_escrow()?
        .settle()?;

    assert!(matches!(trade, TradeWorkflow::Settled { .. }));
    Ok(())
}

#[test]
fn test_invalid_transition_returns_original_state() {
    let (seller, _buyer, item) = setup_entities();

    let trade = TradeWorkflow::new(seller, item, 500);

    let result = trade.accept();

    assert!(matches!(
        result,
        Err(TradeError::InvalidTransition { current_state: TradeWorkflow::Draft { .. } })
    ));
}

#[test]
fn test_cancel_after_escrow_returns_error_with_escrow_state() -> Result<(), TradeError> {
    let (seller, buyer, item) = setup_entities();

    let locked_trade = TradeWorkflow::new(seller, item, 500)
        .offer_to_buyer(buyer)?
        .accept()?
        .request_funds()?
        .receive_funds()?
        .lock_in_escrow()?;

    let cancel_result = locked_trade.cancel(RefundReason::UserCanceled);

    assert!(matches!(
        cancel_result,
        Err(TradeError::InvalidTransition { current_state: TradeWorkflow::HeldInEscrow { .. } })
    ));

    Ok(())
}

fn setup_nested() -> (NestedPlayer, NestedPlayer, NestedItem) {
    let seller = NestedPlayer { id: 1, name: "Merchant_Bob".to_string() };
    let buyer = NestedPlayer { id: 2, name: "Slayer_Alice".to_string() };
    let item = NestedItem { id: 99, name: "Excalibur".to_string() };
    (seller, buyer, item)
}

#[test]
fn test_happy_path_execution() -> Result<(), NestedError> {
    let (seller, buyer, item) = setup_nested();

    let trade = NestedWorkflow::new(seller, item, 500)
        .offer_to_buyer(buyer)?
        .accept_trade()?
        .confirm_funds()?
        .confirm_item_transfer()?
        .settle_trade()?;

    assert!(matches!(trade, NestedWorkflow::Finalized(ResolutionState::Settled(..))));

    Ok(())
}

fn setup_typed() -> (TypedPlayer, TypedPlayer, TypedItem) {
    let seller = TypedPlayer { id: 1, name: "Merchant_Bob".to_string() };
    let buyer = TypedPlayer { id: 2, name: "Slayer_Alice".to_string() };
    let item = TypedItem { id: 99, name: "Excalibur".to_string() };
    (seller, buyer, item)
}

#[test]
fn test_typestate_happy_path() {
    let (seller, buyer, item) = setup_typed();

    let trade = Trade::<Draft>::new(seller.clone(), item.clone(), 500)
        .offer_to_buyer(buyer.clone())
        .accept()
        .request_funds()
        .receive_funds()
        .lock_in_escrow()
        .settle();

    assert_eq!(trade.seller(), &seller);
    assert_eq!(trade.buyer(), &buyer);
    assert_eq!(trade.item(), &item);
    assert_eq!(trade.price(), 500);
}

#[test]
fn test_cancel_before_escrow() {
    let (seller, buyer, item) = setup_typed();

    let trade = Trade::<Draft>::new(seller, item, 500)
        .offer_to_buyer(buyer)
        .accept()
        .cancel(TypedReason::UserCanceled);

    assert_eq!(trade.reason(), TypedReason::UserCanceled);
}

// ---- further cases ----

#[test]
fn flat_cancel_before_escrow_and_terms_kept() {
    let (seller, buyer, item) = setup_entities();
    let aborted = TradeWorkflow::new(seller.clone(), item.clone(), 5)
        .offer_to_buyer(buyer.clone())
        .unwrap()
        .cancel(RefundReason::BuyerInsufficientFunds)
        .unwrap();
    assert_eq!(aborted, TradeWorkflow::Aborted { reason: RefundReason::BuyerInsufficientFunds });
    let err = aborted.cancel(RefundReason::UserCanceled).unwrap_err();
    assert_eq!(
        err,
        TradeError::InvalidTransition {
            current_state: TradeWorkflow::Aborted { reason: RefundReason::BuyerInsufficientFunds }
        }
    );
    let accepted = TradeWorkflow::new(seller.clone(), item.clone(), 5)
        .offer_to_buyer(buyer.clone())
        .unwrap()
        .accept()
        .unwrap();
    assert_eq!(accepted, TradeWorkflow::Accepted { seller, buyer, item, price: 5 });
}

#[test]
fn flat_settle_needs_escrow() {
    let (seller, buyer, item) = setup_entities();
    let offered = TradeWorkflow::new(seller.clone(), item.clone(), 9).offer_to_buyer(buyer.clone()).unwrap();
    let err = offered.settle().unwrap_err();
    assert_eq!(
        err,
        TradeError::InvalidTransition {
            current_state: TradeWorkflow::Offered { seller, buyer, item, price: 9 }
        }
    );
}

#[test]
fn nested_cancel_until_locked() {
    let (seller, buyer, item) = setup_nested();
    let funded = NestedWorkflow::new(seller.clone(), item.clone(), 5)
        .offer_to_buyer(buyer.clone())
        .unwrap()
        .accept_trade()
        .unwrap()
        .confirm_funds()
        .unwrap();
    let context = TradeContext { seller: seller.clone(), buyer: buyer.clone(), item: item.clone(), price: 5 };
    assert_eq!(funded, NestedWorkflow::Securing(EscrowState::AwaitingItemTransfer(context)));
    assert_eq!(
        funded.cancel(NestedReason::EscrowTimeout).unwrap(),
        NestedWorkflow::Finalized(ResolutionState::Aborted { reason: NestedReason::EscrowTimeout })
    );
    let locked = NestedWorkflow::new(seller, item, 5)
        .offer_to_buyer(buyer)
        .unwrap()
        .accept_trade()
        .unwrap()
        .confirm_funds()
        .unwrap()
        .confirm_item_transfer()
        .unwrap();
    let err = locked.cancel(NestedReason::UserCanceled).unwrap_err();
    assert!(matches!(
        err,
        NestedError::InvalidTransition {
            current_state: NestedWorkflow::Securing(EscrowState::HeldInEscrow { .. })
        }
    ));
}

#[test]
fn nested_inner_machines_hand_back_their_state() {
    let (seller, buyer, item) = setup_nested();
    let draft = NegotiationState::new(seller.clone(), item.clone(), 1);
    let offered = draft.offer(buyer.clone()).unwrap();
    let again = offered.offer(buyer.clone()).unwrap_err();
    assert!(matches!(again, NegotiationState::Offered(_)));
    let context = TradeContext { seller, buyer, item, price: 1 };
    let escrow = EscrowState::AwaitingFunds(context.clone());
    assert!(!escrow.is_locked());
    let back = escrow.confirm_item_transfer().unwrap_err();
    assert_eq!(back, EscrowState::AwaitingFunds(context));
    let locked = back.confirm_funds().unwrap().confirm_item_transfer().unwrap();
    assert!(locked.is_locked());
}

#[test]
fn typestate_terms_survive_to_escrow() {
    let (seller, buyer, item) = setup_typed();
    let held = Trade::<Draft>::new(seller.clone(), item.clone(), 77)
        .offer_to_buyer(buyer.clone())
        .accept()
        .request_funds()
        .receive_funds()
        .lock_in_escrow();
    assert_eq!(held.price(), 77);
    assert_eq!(held.seller(), &seller);
    let _at = held.locked_at();
    let aborted = Trade::<Draft>::new(seller, item, 1).cancel(TypedReason::EscrowTimeout);
    assert_eq!(aborted.reason(), TypedReason::EscrowTimeout);
}

#[test]
fn typestate_lock_keeps_the_given_instant() {
    let (seller, buyer, item) = setup_typed();
    let at = std::time::Instant::now();
    let held = Trade::<Draft>::new(seller, item, 3)
        .offer_to_buyer(buyer)
        .accept()
        .request_funds()
        .receive_funds()
        .lock_in_escrow_at(at);
    assert_eq!(held.locked_at(), at);
    assert_eq!(held.locked_at(), held.locked_at());
    assert_eq!(held.price(), 3);
}
