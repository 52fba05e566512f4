//! A trade whose state is part of its type: each transition exists only on
//! the state it starts from, so none can fail.
use std::time::Instant;
use vstd::prelude::*;

use crate::clock::now;

verus! {

#[derive(Clone, Debug, PartialEq, Eq)]
pub struct Player {
    pub id: u32,
    pub name: String,
}

#[derive(Clone, Debug, PartialEq, Eq)]
pub struct Item {
    pub id: u32,
    pub name: String,
}

#[derive(Debug, Clone, Copy, PartialEq, Eq)]
pub enum RefundReason {
    UserCanceled,
    BuyerInsufficientFunds,
    EscrowTimeout,
}

/// The terms that every state from `Offered` on carries.
#[derive(Debug, Clone, PartialEq, Eq)]
pub struct TradeDetails {
    pub seller: Player,
    pub buyer: Player,
    pub item: Item,
    pub price: u32,
}

/// A draft, which has no buyer yet.
pub struct Draft {
    seller: Player,
    item: Item,
    price: u32,
}

impl Draft {
    pub closed spec fn seller_view(self) -> Player {
        self.seller
    }

    pub closed spec fn item_view(self) -> Item {
        self.item
    }

    pub closed spec fn price_view(self) -> u32 {
        self.price
    }
}

pub struct Offered(TradeDetails);

pub struct Accepted(TradeDetails);

pub struct AwaitingFunds(TradeDetails);

pub struct AwaitingItemTransfer(TradeDetails);

pub struct HeldInEscrow {
    details: TradeDetails,
    locked_at: Instant,
}

impl HeldInEscrow {
    pub closed spec fn lock_time(self) -> Instant {
        self.locked_at
    }
}

/// The escrow state that locking `s` at `at` gives: the same terms, stamped
/// with `at`.
pub closed spec fn lock_view(s: AwaitingItemTransfer, at: Instant) -> HeldInEscrow {
    HeldInEscrow { details: s.0, locked_at: at }
}

/// A locked state keeps the terms it was locked with and the instant.
pub proof fn lemma_lock_state(s: AwaitingItemTransfer, at: Instant)
    ensures
        lock_view(s, at).details_view() == s.details_view(),
        lock_view(s, at).lock_time() == at,
{
}

pub struct Settled(TradeDetails);

pub struct Aborted {
    reason: RefundReason,
}

impl Aborted {
    pub closed spec fn reason_view(self) -> RefundReason {
        self.reason
    }
}

/// A trade in the state `State`.
#[derive(Debug, Clone, PartialEq, Eq)]
pub struct Trade<State> {
    state: State,
}

impl<State> View for Trade<State> {
    type V = State;

    closed spec fn view(&self) -> State {
        self.state
    }
}

/// The states that carry the trade's terms.
pub trait HasDetails {
    spec fn details_view(&self) -> TradeDetails;

    fn details(&self) -> (r: &TradeDetails)
        ensures
            *r == self.details_view(),
    ;
}

impl HasDetails for Offered {
    closed spec fn details_view(&self) -> TradeDetails {
        self.0
    }

    fn details(&self) -> (r: &TradeDetails) {
        &self.0
    }
}

impl HasDetails for Accepted {
    closed spec fn details_view(&self) -> TradeDetails {
        self.0
    }

    fn details(&self) -> (r: &TradeDetails) {
        &self.0
    }
}

impl HasDetails for AwaitingFunds {
    closed spec fn details_view(&self) -> TradeDetails {
        self.0
    }

    fn details(&self) -> (r: &TradeDetails) {
        &self.0
    }
}

impl HasDetails for AwaitingItemTransfer {
    closed spec fn details_view(&self) -> TradeDetails {
        self.0
    }

    fn details(&self) -> (r: &TradeDetails) {
        &self.0
    }
}

impl HasDetails for HeldInEscrow {
    closed spec fn details_view(&self) -> TradeDetails {
        self.details
    }

    fn details(&self) -> (r: &TradeDetails) {
        &self.details
    }
}

impl HasDetails for Settled {
    closed spec fn details_view(&self) -> TradeDetails {
        self.0
    }

    fn details(&self) -> (r: &TradeDetails) {
        &self.0
    }
}

impl<S: HasDetails> Trade<S> {
    pub fn seller(&self) -> (r: &Player)
        ensures
            *r == self@.details_view().seller,
    {
        &self.state.details().seller
    }

    pub fn buyer(&self) -> (r: &Player)
        ensures
            *r == self@.details_view().buyer,
    {
        &self.state.details().buyer
    }

    pub fn item(&self) -> (r: &Item)
        ensures
            *r == self@.details_view().item,
    {
        &self.state.details().item
    }

    pub fn price(&self) -> (r: u32)
        ensures
            r == self@.details_view().price,
    {
        self.state.details().price
    }
}

impl Trade<HeldInEscrow> {
    pub fn locked_at(&self) -> (r: Instant)
        ensures
            r == self@.lock_time(),
    {
        self.state.locked_at
    }
}

impl Trade<Aborted> {
    pub fn reason(&self) -> (r: RefundReason)
        ensures
            r == self@.reason_view(),
    {
        self.state.reason
    }
}

impl Trade<Draft> {
    pub fn new(seller: Player, item: Item, price: u32) -> (r: Self)
        ensures
            r@.seller_view() == seller,
            r@.item_view() == item,
            r@.price_view() == price,
    {
        Trade { state: Draft { seller, item, price } }
    }

    pub fn offer_to_buyer(self, buyer: Player) -> (r: Trade<Offered>)
        ensures
            r@.details_view() == (TradeDetails {
                seller: self@.seller_view(),
                buyer,
                item: self@.item_view(),
                price: self@.price_view(),
            }),
    {
        Trade {
            state: Offered(
                TradeDetails {
                    seller: self.state.seller,
                    buyer,
                    item: self.state.item,
                    price: self.state.price,
                },
            ),
        }
    }
}

impl Trade<Offered> {
    pub fn accept(self) -> (r: Trade<Accepted>)
        ensures
            r@.details_view() == self@.details_view(),
    {
        Trade { state: Accepted(self.state.0) }
    }
}

impl Trade<Accepted> {
    pub fn request_funds(self) -> (r: Trade<AwaitingFunds>)
        ensures
            r@.details_view() == self@.details_view(),
    {
        Trade { state: AwaitingFunds(self.state.0) }
    }
}

impl Trade<AwaitingFunds> {
    pub fn receive_funds(self) -> (r: Trade<AwaitingItemTransfer>)
        ensures
            r@.details_view() == self@.details_view(),
    {
        Trade { state: AwaitingItemTransfer(self.state.0) }
    }
}

impl Trade<AwaitingItemTransfer> {
    /// Locks the trade in escrow, stamped with the instant `at`.
    pub fn lock_in_escrow_at(self, at: Instant) -> (r: Trade<HeldInEscrow>)
        ensures
            r@.details_view() == self@.details_view(),
            r@.lock_time() == at,
    {
        Trade { state: HeldInEscrow { details: self.state.0, locked_at: at } }
    }

    /// Locks the trade in escrow, stamped with the clock's current instant.
    pub fn lock_in_escrow(self) -> (r: Trade<HeldInEscrow>)
        ensures
            r@.details_view() == self@.details_view(),
            exists|at: Instant| r@ == lock_view(self@, at),
    {
        let at = now();
        let r = self.lock_in_escrow_at(at);
        assert(r@ == lock_view(self@, at));
        r
    }
}

impl Trade<HeldInEscrow> {
    pub fn settle(self) -> (r: Trade<Settled>)
        ensures
            r@.details_view() == self@.details_view(),
    {
        Trade { state: Settled(self.state.details) }
    }
}

/// The states from which a trade can still be called off: those before
/// escrow.
pub trait Cancelable {

}

impl Cancelable for Draft {

}

impl Cancelable for Offered {

}

impl Cancelable for Accepted {

}

impl Cancelable for AwaitingFunds {

}

impl Cancelable for AwaitingItemTransfer {

}

impl<S: Cancelable> Trade<S> {
    pub fn cancel(self, reason: RefundReason) -> (r: Trade<Aborted>)
        ensures
            r@.reason_view() == reason,
    {
        Trade { state: Aborted { reason } }
    }
}

} // verus!
