//! A trade as one flat enum: every state repeats the trade's terms, and a
//! transition that does not apply hands the trade back inside the error.
use std::time::Instant;
use vstd::prelude::*;

use crate::clock::now;

verus! {

#[derive(Clone, Debug, PartialEq, Eq)]
pub struct Player {
    pub id: u32,
    pub name: String,
}

#[derive(Clone, Debug, PartialEq, Eq)]
pub struct Item {
    pub id: u32,
    pub name: String,
}

#[derive(Debug, Clone, Copy, PartialEq, Eq)]
pub enum RefundReason {
    UserCanceled,
    BuyerInsufficientFunds,
    EscrowTimeout,
}

/// A transition that does not apply to the trade's state, with the trade.
#[derive(Debug, PartialEq, Eq)]
pub enum TradeError {
    InvalidTransition { current_state: TradeWorkflow },
}

/// The states of a trade.
#[derive(Debug, PartialEq, Eq)]
pub enum TradeWorkflow {
    Draft { seller: Player, item: Item, price: u32 },
    Offered { seller: Player, buyer: Player, item: Item, price: u32 },
    Accepted { seller: Player, buyer: Player, item: Item, price: u32 },
    AwaitingFunds { seller: Player, buyer: Player, item: Item, price: u32 },
    AwaitingItemTransfer { seller: Player, buyer: Player, item: Item, price: u32 },
    HeldInEscrow { seller: Player, buyer: Player, item: Item, price: u32, locked_at: Instant },
    Settled { seller: Player, buyer: Player, item: Item, price: u32 },
    Aborted { reason: RefundReason },
}

/// The rejection of a transition from `s`.
pub open spec fn rejected(s: TradeWorkflow) -> Result<TradeWorkflow, TradeError> {
    Err(TradeError::InvalidTransition { current_state: s })
}

/// A draft is offered to `buyer`.
pub open spec fn offer_spec(s: TradeWorkflow, buyer: Player) -> Result<TradeWorkflow, TradeError> {
    match s {
        TradeWorkflow::Draft { seller, item, price } => Ok(
            TradeWorkflow::Offered { seller, buyer, item, price },
        ),
        _ => rejected(s),
    }
}

/// An offer is accepted.
pub open spec fn accept_spec(s: TradeWorkflow) -> Result<TradeWorkflow, TradeError> {
    match s {
        TradeWorkflow::Offered { seller, buyer, item, price } => Ok(
            TradeWorkflow::Accepted { seller, buyer, item, price },
        ),
        _ => rejected(s),
    }
}

/// An accepted trade waits for the buyer's funds.
pub open spec fn request_funds_spec(s: TradeWorkflow) -> Result<TradeWorkflow, TradeError> {
    match s {
        TradeWorkflow::Accepted { seller, buyer, item, price } => Ok(
            TradeWorkflow::AwaitingFunds { seller, buyer, item, price },
        ),
        _ => rejected(s),
    }
}

/// Once funded, the trade waits for the item.
pub open spec fn receive_funds_spec(s: TradeWorkflow) -> Result<TradeWorkflow, TradeError> {
    match s {
        TradeWorkflow::AwaitingFunds { seller, buyer, item, price } => Ok(
            TradeWorkflow::AwaitingItemTransfer { seller, buyer, item, price },
        ),
        _ => rejected(s),
    }
}

/// Once the item is transferred, the trade is locked in escrow at `at`.
pub open spec fn lock_spec(s: TradeWorkflow, at: Instant) -> Result<TradeWorkflow, TradeError> {
    match s {
        TradeWorkflow::AwaitingItemTransfer { seller, buyer, item, price } => Ok(
            TradeWorkflow::HeldInEscrow { seller, buyer, item, price, locked_at: at },
        ),
        _ => rejected(s),
    }
}

/// A trade in escrow is settled.
pub open spec fn settle_spec(s: TradeWorkflow) -> Result<TradeWorkflow, TradeError> {
    match s {
        TradeWorkflow::HeldInEscrow { seller, buyer, item, price, .. } => Ok(
            TradeWorkflow::Settled { seller, buyer, item, price },
        ),
        _ => rejected(s),
    }
}

/// Whether a trade can still be called off: any state before escrow.
pub open spec fn cancelable(s: TradeWorkflow) -> bool {
    ||| s is Draft
    ||| s is Offered
    ||| s is Accepted
    ||| s is AwaitingFunds
    ||| s is AwaitingItemTransfer
}

/// A trade before escrow is aborted for `reason`.
pub open spec fn cancel_spec(s: TradeWorkflow, reason: RefundReason) -> Result<
    TradeWorkflow,
    TradeError,
> {
    if cancelable(s) {
        Ok(TradeWorkflow::Aborted { reason })
    } else {
        rejected(s)
    }
}

/// How far along a trade is, from a draft (0) to aborted (7).
pub open spec fn stage(s: TradeWorkflow) -> nat {
    match s {
        TradeWorkflow::Draft { .. } => 0,
        TradeWorkflow::Offered { .. } => 1,
        TradeWorkflow::Accepted { .. } => 2,
        TradeWorkflow::AwaitingFunds { .. } => 3,
        TradeWorkflow::AwaitingItemTransfer { .. } => 4,
        TradeWorkflow::HeldInEscrow { .. } => 5,
        TradeWorkflow::Settled { .. } => 6,
        TradeWorkflow::Aborted { .. } => 7,
    }
}

/// The seller, buyer, item and price of a trade that has a buyer.
pub open spec fn terms(s: TradeWorkflow) -> Option<(Player, Player, Item, u32)> {
    match s {
        TradeWorkflow::Offered { seller, buyer, item, price } => Some((seller, buyer, item, price)),
        TradeWorkflow::Accepted { seller, buyer, item, price } => Some(
            (seller, buyer, item, price),
        ),
        TradeWorkflow::AwaitingFunds { seller, buyer, item, price } => Some(
            (seller, buyer, item, price),
        ),
        TradeWorkflow::AwaitingItemTransfer { seller, buyer, item, price } => Some(
            (seller, buyer, item, price),
        ),
        TradeWorkflow::HeldInEscrow { seller, buyer, item, price, .. } => Some(
            (seller, buyer, item, price),
        ),
        TradeWorkflow::Settled { seller, buyer, item, price } => Some(
            (seller, buyer, item, price),
        ),
        _ => None,
    }
}

impl TradeWorkflow {
    pub fn new(seller: Player, item: Item, price: u32) -> (r: Self)
        ensures
            r == (TradeWorkflow::Draft { seller, item, price }),
    {
        Self::Draft { seller, item, price }
    }

    pub fn offer_to_buyer(self, buyer: Player) -> (r: Result<Self, TradeError>)
        ensures
            r == offer_spec(self, buyer),
    {
        match self {
            Self::Draft { seller, item, price } => { Ok(Self::Offered { seller, buyer, item, price })
            },
            current_state => Err(TradeError::InvalidTransition { current_state }),
        }
    }

    pub fn accept(self) -> (r: Result<Self, TradeError>)
        ensures
            r == accept_spec(self),
    {
        match self {
            Self::Offered { seller, buyer, item, price } => {
                Ok(Self::Accepted { seller, buyer, item, price })
            },
            current_state => Err(TradeError::InvalidTransition { current_state }),
        }
    }

    pub fn request_funds(self) -> (r: Result<Self, TradeError>)
        ensures
            r == request_funds_spec(self),
    {
        match self {
            Self::Accepted { seller, buyer, item, price } => {
                Ok(Self::AwaitingFunds { seller, buyer, item, price })
            },
            current_state => Err(TradeError::InvalidTransition { current_state }),
        }
    }

    pub fn receive_funds(self) -> (r: Result<Self, TradeError>)
        ensures
            r == receive_funds_spec(self),
    {
        match self {
            Self::AwaitingFunds { seller, buyer, item, price } => {
                Ok(Self::AwaitingItemTransfer { seller, buyer, item, price })
            },
            current_state => Err(TradeError::InvalidTransition { current_state }),
        }
    }

    /// Locks the trade in escrow, stamped with the clock's current instant.
    pub fn lock_in_escrow(self) -> (r: Result<Self, TradeError>)
        ensures
            exists|at: Instant| r == lock_spec(self, at),
    {
        match self {
            Self::AwaitingItemTransfer { seller, buyer, item, price } => {
                let locked_at = now();
                let r = Ok(Self::HeldInEscrow { seller, buyer, item, price, locked_at });
                assert(r == lock_spec(self, locked_at));
                r
            },
            current_state => {
                assert(lock_spec(current_state, arbitrary()) == rejected(current_state));
                Err(TradeError::InvalidTransition { current_state })
            },
        }
    }

    pub fn settle(self) -> (r: Result<Self, TradeError>)
        ensures
            r == settle_spec(self),
    {
        match self {
            Self::HeldInEscrow { seller, buyer, item, price, .. } => {
                Ok(Self::Settled { seller, buyer, item, price })
            },
            current_state => Err(TradeError::InvalidTransition { current_state }),
        }
    }

    /// Aborts a trade that has not reached escrow.
    pub fn cancel(self, reason: RefundReason) -> (r: Result<Self, TradeError>)
        ensures
            r == cancel_spec(self, reason),
    {
        match self {
            Self::Draft { .. }
            | Self::Offered { .. }
            | Self::Accepted { .. }
            | Self::AwaitingFunds { .. }
            | Self::AwaitingItemTransfer { .. } => { Ok(Self::Aborted { reason }) },
            Self::HeldInEscrow { .. } | Self::Settled { .. } | Self::Aborted { .. } => Err(
                TradeError::InvalidTransition { current_state: self },
            ),
        }
    }
}

/// Every transition that succeeds moves the trade strictly forward, so no
/// trade ever returns to a state it has left.
pub proof fn lemma_transitions_move_forward(
    s: TradeWorkflow,
    buyer: Player,
    at: Instant,
    reason: RefundReason,
)
    ensures
        offer_spec(s, buyer) matches Ok(t) ==> stage(t) > stage(s),
        accept_spec(s) matches Ok(t) ==> stage(t) > stage(s),
        request_funds_spec(s) matches Ok(t) ==> stage(t) > stage(s),
        receive_funds_spec(s) matches Ok(t) ==> stage(t) > stage(s),
        lock_spec(s, at) matches Ok(t) ==> stage(t) > stage(s),
        settle_spec(s) matches Ok(t) ==> stage(t) > stage(s),
        cancel_spec(s, reason) matches Ok(t) ==> stage(t) > stage(s),
{
}

/// Once a buyer is named, the terms of the trade never change on the way to
/// settlement.
pub proof fn lemma_terms_are_kept(s: TradeWorkflow, buyer: Player, at: Instant)
    ensures
        offer_spec(s, buyer) matches Ok(t) ==> terms(t) == Some(
            (s->Draft_seller, buyer, s->Draft_item, s->Draft_price),
        ),
        accept_spec(s) matches Ok(t) ==> terms(t) == terms(s),
        request_funds_spec(s) matches Ok(t) ==> terms(t) == terms(s),
        receive_funds_spec(s) matches Ok(t) ==> terms(t) == terms(s),
        lock_spec(s, at) matches Ok(t) ==> terms(t) == terms(s),
        settle_spec(s) matches Ok(t) ==> terms(t) == terms(s),
{
}

/// A trade can be called off exactly before escrow, and a call that fails
/// leaves the trade as it was.
pub proof fn lemma_cancel_only_before_escrow(s: TradeWorkflow, reason: RefundReason)
    ensures
        cancel_spec(s, reason) is Ok <==> stage(s) < 5,
        cancel_spec(s, reason) is Err ==> cancel_spec(s, reason) == rejected(s),
{
}

/// The trade moves one stage at a time along draft, offered, accepted,
/// awaiting funds, awaiting the item, held in escrow and settled: each step
/// applies to exactly one stage, takes the trade to the next one, and
/// anywhere else hands the trade back unchanged. So no trade is locked in
/// escrow before its funds and its item have come, and none is settled
/// before it was locked.
pub proof fn lemma_one_stage_at_a_time(s: TradeWorkflow, buyer: Player, at: Instant)
    ensures
        offer_spec(s, buyer) is Ok <==> stage(s) == 0,
        accept_spec(s) is Ok <==> stage(s) == 1,
        request_funds_spec(s) is Ok <==> stage(s) == 2,
        receive_funds_spec(s) is Ok <==> stage(s) == 3,
        lock_spec(s, at) is Ok <==> stage(s) == 4,
        settle_spec(s) is Ok <==> stage(s) == 5,
        offer_spec(s, buyer) matches Ok(t) ==> stage(t) == stage(s) + 1,
        accept_spec(s) matches Ok(t) ==> stage(t) == stage(s) + 1,
        request_funds_spec(s) matches Ok(t) ==> stage(t) == stage(s) + 1,
        receive_funds_spec(s) matches Ok(t) ==> stage(t) == stage(s) + 1,
        lock_spec(s, at) matches Ok(t) ==> stage(t) == stage(s) + 1,
        settle_spec(s) matches Ok(t) ==> stage(t) == stage(s) + 1,
        offer_spec(s, buyer) is Err ==> offer_spec(s, buyer) == rejected(s),
        accept_spec(s) is Err ==> accept_spec(s) == rejected(s),
        request_funds_spec(s) is Err ==> request_funds_spec(s) == rejected(s),
        receive_funds_spec(s) is Err ==> receive_funds_spec(s) == rejected(s),
        lock_spec(s, at) is Err ==> lock_spec(s, at) == rejected(s),
        settle_spec(s) is Err ==> settle_spec(s) == rejected(s),
{
}

/// A trade locked in escrow holds the instant it was locked at.
pub proof fn lemma_lock_records_instant(s: TradeWorkflow, at: Instant)
    ensures
        lock_spec(s, at) matches Ok(t) ==> t matches TradeWorkflow::HeldInEscrow { locked_at, .. }
            && locked_at == at,
{
}

} // verus!
