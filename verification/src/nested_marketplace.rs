//! A trade as small state machines for negotiation, escrow and resolution,
//! nested inside one that moves between these phases.
use std::time::Instant;
use vstd::prelude::*;

use crate::clock::now;

verus! {

#[derive(Clone, Debug, PartialEq, Eq)]
pub struct Player {
    pub id: u32,
    pub name: String,
}

#[derive(Clone, Debug, PartialEq, Eq)]
pub struct Item {
    pub id: u32,
    pub name: String,
}

#[derive(Debug, Clone, Copy, PartialEq, Eq)]
pub enum RefundReason {
    UserCanceled,
    BuyerInsufficientFunds,
    EscrowTimeout,
}

/// The terms of a trade once it has a buyer.
#[derive(Clone, Debug, PartialEq, Eq)]
pub struct TradeContext {
    pub seller: Player,
    pub buyer: Player,
    pub item: Item,
    pub price: u32,
}

/// A transition that does not apply to the trade's state, with the trade.
#[derive(Debug, PartialEq, Eq)]
pub enum TradeError {
    InvalidTransition { current_state: TradeWorkflow },
}

/// Negotiation: a draft until a buyer is named.
#[derive(Debug, PartialEq, Eq)]
pub enum NegotiationState {
    Draft { seller: Player, item: Item, price: u32 },
    Offered(TradeContext),
}

impl NegotiationState {
    pub fn new(seller: Player, item: Item, price: u32) -> (r: Self)
        ensures
            r == (NegotiationState::Draft { seller, item, price }),
    {
        Self::Draft { seller, item, price }
    }

    /// Offers a draft to `buyer`; any other state comes back as the error.
    pub fn offer(self, buyer: Player) -> (r: Result<Self, Self>)
        ensures
            r == match self {
                NegotiationState::Draft { seller, item, price } => Ok(
                    NegotiationState::Offered(TradeContext { seller, buyer, item, price }),
                ),
                _ => Err(self),
            },
    {
        match self {
            Self::Draft { seller, item, price } => {
                Ok(Self::Offered(TradeContext { seller, buyer, item, price }))
            },
            current => Err(current),
        }
    }
}

/// Escrow: funds first, then the item, then the lock.
#[derive(Debug, PartialEq, Eq)]
pub enum EscrowState {
    AwaitingFunds(TradeContext),
    AwaitingItemTransfer(TradeContext),
    HeldInEscrow { context: TradeContext, locked_at: Instant },
}

/// Confirming the item locks the escrow at `at`; any other state comes
/// back as the error.
pub open spec fn item_transfer_spec(s: EscrowState, at: Instant) -> Result<EscrowState, EscrowState> {
    match s {
        EscrowState::AwaitingItemTransfer(context) => Ok(
            EscrowState::HeldInEscrow { context, locked_at: at },
        ),
        _ => Err(s),
    }
}

impl EscrowState {
    /// Funds received: the escrow waits for the item.
    pub fn confirm_funds(self) -> (r: Result<Self, Self>)
        ensures
            r == match self {
                EscrowState::AwaitingFunds(context) => Ok(
                    EscrowState::AwaitingItemTransfer(context),
                ),
                _ => Err(self),
            },
    {
        match self {
            Self::AwaitingFunds(context) => Ok(Self::AwaitingItemTransfer(context)),
            current => Err(current),
        }
    }

    /// Item received: the escrow is locked at the clock's current instant.
    pub fn confirm_item_transfer(self) -> (r: Result<Self, Self>)
        ensures
            exists|at: Instant| r == item_transfer_spec(self, at),
    {
        match self {
            Self::AwaitingItemTransfer(context) => {
                let locked_at = now();
                let r = Ok(Self::HeldInEscrow { context, locked_at });
                assert(r == item_transfer_spec(self, locked_at));
                r
            },
            current => {
                assert(item_transfer_spec(current, arbitrary()) == Err::<EscrowState, EscrowState>(
                    current,
                ));
                Err(current)
            },
        }
    }

    pub fn is_locked(&self) -> (r: bool)
        ensures
            r == (self is HeldInEscrow),
    {
        matches!(self, Self::HeldInEscrow { .. })
    }
}

/// How a trade ended.
#[derive(Debug, PartialEq, Eq)]
pub enum ResolutionState {
    Settled(TradeContext),
    Aborted { reason: RefundReason },
}

/// The phases of a trade.
#[derive(Debug, PartialEq, Eq)]
pub enum TradeWorkflow {
    Negotiating(NegotiationState),
    Securing(EscrowState),
    Finalized(ResolutionState),
}

/// The rejection of a transition from `s`.
pub open spec fn rejected(s: TradeWorkflow) -> Result<TradeWorkflow, TradeError> {
    Err(TradeError::InvalidTransition { current_state: s })
}

/// A draft is offered to `buyer`.
pub open spec fn offer_spec(s: TradeWorkflow, buyer: Player) -> Result<TradeWorkflow, TradeError> {
    match s {
        TradeWorkflow::Negotiating(NegotiationState::Draft { seller, item, price }) => Ok(
            TradeWorkflow::Negotiating(
                NegotiationState::Offered(TradeContext { seller, buyer, item, price }),
            ),
        ),
        _ => rejected(s),
    }
}

/// Accepting an offer moves the trade straight to awaiting funds.
pub open spec fn accept_spec(s: TradeWorkflow) -> Result<TradeWorkflow, TradeError> {
    match s {
        TradeWorkflow::Negotiating(NegotiationState::Offered(context)) => Ok(
            TradeWorkflow::Securing(EscrowState::AwaitingFunds(context)),
        ),
        _ => rejected(s),
    }
}

/// Funds received.
pub open spec fn funds_spec(s: TradeWorkflow) -> Result<TradeWorkflow, TradeError> {
    match s {
        TradeWorkflow::Securing(EscrowState::AwaitingFunds(context)) => Ok(
            TradeWorkflow::Securing(EscrowState::AwaitingItemTransfer(context)),
        ),
        _ => rejected(s),
    }
}

/// Item received: locked in escrow at `at`.
pub open spec fn item_spec(s: TradeWorkflow, at: Instant) -> Result<TradeWorkflow, TradeError> {
    match s {
        TradeWorkflow::Securing(EscrowState::AwaitingItemTransfer(context)) => Ok(
            TradeWorkflow::Securing(EscrowState::HeldInEscrow { context, locked_at: at }),
        ),
        _ => rejected(s),
    }
}

/// A trade locked in escrow is settled.
pub open spec fn settle_spec(s: TradeWorkflow) -> Result<TradeWorkflow, TradeError> {
    match s {
        TradeWorkflow::Securing(EscrowState::HeldInEscrow { context, .. }) => Ok(
            TradeWorkflow::Finalized(ResolutionState::Settled(context)),
        ),
        _ => rejected(s),
    }
}

/// Whether a trade can still be called off: while negotiating, or in escrow
/// before the lock.
pub open spec fn cancelable(s: TradeWorkflow) -> bool {
    match s {
        TradeWorkflow::Negotiating(_) => true,
        TradeWorkflow::Securing(e) => !(e is HeldInEscrow),
        TradeWorkflow::Finalized(_) => false,
    }
}

/// A trade that can be called off is aborted for `reason`.
pub open spec fn cancel_spec(s: TradeWorkflow, reason: RefundReason) -> Result<
    TradeWorkflow,
    TradeError,
> {
    if cancelable(s) {
        Ok(TradeWorkflow::Finalized(ResolutionState::Aborted { reason }))
    } else {
        rejected(s)
    }
}

/// How far along a trade is, from a draft (0) to aborted (6).
pub open spec fn stage(s: TradeWorkflow) -> nat {
    match s {
        TradeWorkflow::Negotiating(NegotiationState::Draft { .. }) => 0,
        TradeWorkflow::Negotiating(NegotiationState::Offered(_)) => 1,
        TradeWorkflow::Securing(EscrowState::AwaitingFunds(_)) => 2,
        TradeWorkflow::Securing(EscrowState::AwaitingItemTransfer(_)) => 3,
        TradeWorkflow::Securing(EscrowState::HeldInEscrow { .. }) => 4,
        TradeWorkflow::Finalized(ResolutionState::Settled(_)) => 5,
        TradeWorkflow::Finalized(ResolutionState::Aborted { .. }) => 6,
    }
}

/// The terms of a trade that has a buyer.
pub open spec fn terms(s: TradeWorkflow) -> Option<TradeContext> {
    match s {
        TradeWorkflow::Negotiating(NegotiationState::Offered(c)) => Some(c),
        TradeWorkflow::Securing(EscrowState::AwaitingFunds(c)) => Some(c),
        TradeWorkflow::Securing(EscrowState::AwaitingItemTransfer(c)) => Some(c),
        TradeWorkflow::Securing(EscrowState::HeldInEscrow { context, .. }) => Some(context),
        TradeWorkflow::Finalized(ResolutionState::Settled(c)) => Some(c),
        _ => None,
    }
}

impl TradeWorkflow {
    pub fn new(seller: Player, item: Item, price: u32) -> (r: Self)
        ensures
            r == TradeWorkflow::Negotiating(NegotiationState::Draft { seller, item, price }),
    {
        Self::Negotiating(NegotiationState::new(seller, item, price))
    }

    pub fn offer_to_buyer(self, buyer: Player) -> (r: Result<Self, TradeError>)
        ensures
            r == offer_spec(self, buyer),
    {
        match self {
            Self::Negotiating(state) => match state.offer(buyer) {
                Ok(next) => Ok(Self::Negotiating(next)),
                Err(prev) => Err(TradeError::InvalidTransition { current_state: Self::Negotiating(prev) }),
            },
            current_state => Err(TradeError::InvalidTransition { current_state }),
        }
    }

    /// Accepting an offer moves the trade straight into escrow, awaiting
    /// funds.
    pub fn accept_trade(self) -> (r: Result<Self, TradeError>)
        ensures
            r == accept_spec(self),
    {
        match self {
            Self::Negotiating(NegotiationState::Offered(context)) => {
                Ok(Self::Securing(EscrowState::AwaitingFunds(context)))
            },
            current_state => Err(TradeError::InvalidTransition { current_state }),
        }
    }

    pub fn confirm_funds(self) -> (r: Result<Self, TradeError>)
        ensures
            r == funds_spec(self),
    {
        match self {
            Self::Securing(state) => match state.confirm_funds() {
                Ok(next) => Ok(Self::Securing(next)),
                Err(prev) => Err(TradeError::InvalidTransition { current_state: Self::Securing(prev) }),
            },
            current_state => Err(TradeError::InvalidTransition { current_state }),
        }
    }

    /// Locks the trade in escrow, stamped with the clock's current instant.
    pub fn confirm_item_transfer(self) -> (r: Result<Self, TradeError>)
        ensures
            exists|at: Instant| r == item_spec(self, at),
    {
        match self {
            Self::Securing(state) => {
                let ghost before = state;
                match state.confirm_item_transfer() {
                    Ok(next) => {
                        let r = Ok(Self::Securing(next));
                        let ghost at = choose|at: Instant| item_transfer_spec(before, at) == Ok::<
                            EscrowState,
                            EscrowState,
                        >(next);
                        assert(r == item_spec(Self::Securing(before), at));
                        r
                    },
                    Err(prev) => {
                        let r = Err(TradeError::InvalidTransition { current_state: Self::Securing(prev) });
                        assert(r == item_spec(Self::Securing(before), arbitrary()));
                        r
                    },
                }
            },
            current_state => {
                assert(item_spec(current_state, arbitrary()) == rejected(current_state));
                Err(TradeError::InvalidTransition { current_state })
            },
        }
    }

    /// Settles a trade that is locked in escrow.
    pub fn settle_trade(self) -> (r: Result<Self, TradeError>)
        ensures
            r == settle_spec(self),
    {
        match self {
            Self::Securing(EscrowState::HeldInEscrow { context, .. }) => {
                Ok(Self::Finalized(ResolutionState::Settled(context)))
            },
            current_state => Err(TradeError::InvalidTransition { current_state }),
        }
    }

    /// Aborts a trade that is negotiating or not yet locked in escrow.
    pub fn cancel(self, reason: RefundReason) -> (r: Result<Self, TradeError>)
        ensures
            r == cancel_spec(self, reason),
    {
        match self {
            Self::Negotiating(_) => Ok(Self::Finalized(ResolutionState::Aborted { reason })),
            Self::Securing(ref escrow) if !escrow.is_locked() => {
                Ok(Self::Finalized(ResolutionState::Aborted { reason }))
            },
            current_state => Err(TradeError::InvalidTransition { current_state }),
        }
    }
}

/// Every transition that succeeds moves the trade strictly forward.
pub proof fn lemma_transitions_move_forward(
    s: TradeWorkflow,
    buyer: Player,
    at: Instant,
    reason: RefundReason,
)
    ensures
        offer_spec(s, buyer) matches Ok(t) ==> stage(t) > stage(s),
        accept_spec(s) matches Ok(t) ==> stage(t) > stage(s),
        funds_spec(s) matches Ok(t) ==> stage(t) > stage(s),
        item_spec(s, at) matches Ok(t) ==> stage(t) > stage(s),
        settle_spec(s) matches Ok(t) ==> stage(t) > stage(s),
        cancel_spec(s, reason) matches Ok(t) ==> stage(t) > stage(s),
{
}

/// Once a buyer is named, the terms of the trade never change on the way to
/// settlement.
pub proof fn lemma_terms_are_kept(s: TradeWorkflow, at: Instant)
    ensures
        accept_spec(s) matches Ok(t) ==> terms(t) == terms(s),
        funds_spec(s) matches Ok(t) ==> terms(t) == terms(s),
        item_spec(s, at) matches Ok(t) ==> terms(t) == terms(s),
        settle_spec(s) matches Ok(t) ==> terms(t) == terms(s),
{
}

/// A trade can be called off exactly before the escrow lock, and a call
/// that fails leaves the trade as it was.
pub proof fn lemma_cancel_only_before_lock(s: TradeWorkflow, reason: RefundReason)
    ensures
        cancel_spec(s, reason) is Ok <==> stage(s) < 4,
        cancel_spec(s, reason) is Err ==> cancel_spec(s, reason) == rejected(s),
{
}

/// The trade moves one stage at a time along draft, offered, awaiting funds,
/// awaiting the item, held in escrow and settled: each step applies to
/// exactly one stage, takes the trade to the next one, and anywhere else
/// hands the trade back unchanged. So no trade is settled before it was
/// locked in escrow, and none is locked before its funds have come.
pub proof fn lemma_one_stage_at_a_time(s: TradeWorkflow, buyer: Player, at: Instant)
    ensures
        offer_spec(s, buyer) is Ok <==> stage(s) == 0,
        accept_spec(s) is Ok <==> stage(s) == 1,
        funds_spec(s) is Ok <==> stage(s) == 2,
        item_spec(s, at) is Ok <==> stage(s) == 3,
        settle_spec(s) is Ok <==> stage(s) == 4,
        offer_spec(s, buyer) matches Ok(t) ==> stage(t) == stage(s) + 1,
        accept_spec(s) matches Ok(t) ==> stage(t) == stage(s) + 1,
        funds_spec(s) matches Ok(t) ==> stage(t) == stage(s) + 1,
        item_spec(s, at) matches Ok(t) ==> stage(t) == stage(s) + 1,
        settle_spec(s) matches Ok(t) ==> stage(t) == stage(s) + 1,
        offer_spec(s, buyer) is Err ==> offer_spec(s, buyer) == rejected(s),
        accept_spec(s) is Err ==> accept_spec(s) == rejected(s),
        funds_spec(s) is Err ==> funds_spec(s) == rejected(s),
        item_spec(s, at) is Err ==> item_spec(s, at) == rejected(s),
        settle_spec(s) is Err ==> settle_spec(s) == rejected(s),
{
}

/// Inside escrow, only a trade awaiting its item is locked, at the instant
/// given and with its terms; anything else is handed back as it was.
pub proof fn lemma_escrow_locks_only_after_funds(s: EscrowState, at: Instant)
    ensures
        item_transfer_spec(s, at) is Ok <==> s is AwaitingItemTransfer,
        item_transfer_spec(s, at) matches Ok(t) ==> t == (EscrowState::HeldInEscrow {
            context: s->AwaitingItemTransfer_0,
            locked_at: at,
        }),
        item_transfer_spec(s, at) is Err ==> item_transfer_spec(s, at) == Err::<
            EscrowState,
            EscrowState,
        >(s),
{
}

} // verus!
