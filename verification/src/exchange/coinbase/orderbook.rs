//! Conversion of [`Coinbase`](super::Coinbase) level 3 order book messages into
//! [`OrderBookEvent`]s.
//!
//! The types are generic over the amount type `A` (prices, sizes and funds) and the time
//! type `T`, which are only carried along: the conversion decides which event an order
//! message becomes, and never computes with an amount.

use crate::model::{Side, SubscriptionId};
use vstd::prelude::*;

verus! {

/// Order types that may be encountered in a level 3 "received" message.
#[derive(Clone, Copy, Debug, PartialEq, Eq, Structural)]
pub enum OrderType {
    Limit,
    Market,
}

/// A resting order: id, price and size.
#[derive(Clone, Debug)]
pub struct AtomicOrder<A> {
    pub id: String,
    pub price: A,
    pub size: A,
}

/// A limit order on the bid or ask side of the book.
#[derive(Clone, Debug)]
pub enum LimitOrder<A> {
    Bid(AtomicOrder<A>),
    Ask(AtomicOrder<A>),
}

/// A market order, given either by size or by the funds to spend / receive.
#[derive(Clone, Debug)]
pub enum MarketOrder<A> {
    BuyWithFunds(A),
    BuySize(A),
    SellForFunds(A),
    SellSize(A),
}

/// An order accepted by the matching engine.
#[derive(Clone, Debug)]
pub enum Order<A> {
    LimitOrder(LimitOrder<A>),
    MarketOrder(MarketOrder<A>),
}

/// A change to a level 3 order book, with the sequence number of the message.
#[derive(Clone, Debug)]
pub enum OrderBookEvent<A> {
    Received(Order<A>, u64),
    Open(LimitOrder<A>, u64),
    Done(String, u64),
    Change(String, A, u64),
}

/// [`Coinbase`](super::Coinbase) message variants received over the WebSocket: a trade
/// (of type `Tr`) or a level 3 order book message.
#[derive(Clone, Debug)]
pub enum CoinbaseMessage<Tr, A, T> {
    Trade(Tr),
    OrderBookL3Received(CoinbaseOrderBookL3Received<A, T>),
    OrderBookL3Open(CoinbaseOrderBookL3Open<A, T>),
    OrderBookL3Done(CoinbaseOrderBookL3Done<A, T>),
    OrderBookL3Change(CoinbaseOrderBookL3Change<A, T>),
}

/// "received": the matching engine received an order and accepted it for processing.
#[derive(Clone, Debug)]
pub struct CoinbaseOrderBookL3Received<A, T> {
    pub subscription_id: SubscriptionId,
    pub order_id: String,
    pub order_type: OrderType,
    pub size: Option<A>,
    pub price: Option<A>,
    pub funds: Option<A>,
    pub client_oid: String,
    pub side: Side,
    pub time: T,
    pub sequence: u64,
}

/// "open": an order that did not fill immediately was added to the book with
/// `remaining_size` unfilled.
#[derive(Clone, Debug)]
pub struct CoinbaseOrderBookL3Open<A, T> {
    pub subscription_id: SubscriptionId,
    pub order_id: String,
    pub remaining_size: A,
    pub price: A,
    pub side: Side,
    pub time: T,
    pub sequence: u64,
}

/// "done": an order was removed from the book, by a cancel or a fill.
#[derive(Clone, Debug)]
pub struct CoinbaseOrderBookL3Done<A, T> {
    pub subscription_id: SubscriptionId,
    pub order_id: String,
    pub reason: String,
    pub remaining_size: Option<A>,
    pub price: Option<A>,
    pub side: Option<Side>,
    pub time: T,
    pub sequence: u64,
}

/// "change": the size of an existing order changed.
#[derive(Clone, Debug)]
pub struct CoinbaseOrderBookL3Change<A, T> {
    pub subscription_id: SubscriptionId,
    pub order_id: String,
    pub reason: String,
    pub old_size: Option<A>,
    pub new_size: A,
    pub price: Option<A>,
    pub side: Option<Side>,
    pub time: T,
    pub sequence: u64,
}

/// The value an optional field of a level 3 message takes when the message leaves it
/// out: none.
pub fn serde_default_none<T>() -> (r: Option<T>)
    ensures
        r is None,
{
    None
}

/// The amount held by `a`, or `zero` when absent.
pub open spec fn or_zero<A>(a: Option<A>, zero: A) -> A {
    match a {
        Some(v) => v,
        None => zero,
    }
}

fn unwrap_or_zero<A>(a: Option<A>, zero: A) -> (r: A)
    ensures
        r == or_zero(a, zero),
{
    match a {
        Some(v) => v,
        None => zero,
    }
}

/// Convert a "received" message into an [`OrderBookEvent::Received`].
///
/// A limit order becomes a bid (buy) or ask (sell) at its price and size, a missing
/// price or size standing as `zero`. A market order is given by its funds when only the
/// funds are present, by its size when only the size is present, and as a size of
/// `zero` otherwise.
pub fn order_book_event_from_received<A: Copy, T>(
    received: CoinbaseOrderBookL3Received<A, T>,
    zero: A,
) -> (r: OrderBookEvent<A>)
    ensures
        ({
            let seq = received.sequence;
            let limit = AtomicOrder {
                id: received.order_id,
                price: or_zero(received.price, zero),
                size: or_zero(received.size, zero),
            };
            let market_buy = match (received.funds, received.size) {
                (Some(funds), None) => MarketOrder::BuyWithFunds(funds),
                (None, Some(size)) => MarketOrder::BuySize(size),
                _ => MarketOrder::BuySize(zero),
            };
            let market_sell = match (received.funds, received.size) {
                (Some(funds), None) => MarketOrder::SellForFunds(funds),
                (None, Some(size)) => MarketOrder::SellSize(size),
                _ => MarketOrder::SellSize(zero),
            };
            &&& (received.order_type == OrderType::Limit && received.side == Side::Buy) ==> r
                == OrderBookEvent::Received(Order::LimitOrder(LimitOrder::Bid(limit)), seq)
            &&& (received.order_type == OrderType::Limit && received.side == Side::Sell) ==> r
                == OrderBookEvent::Received(Order::LimitOrder(LimitOrder::Ask(limit)), seq)
            &&& (received.order_type == OrderType::Market && received.side == Side::Buy) ==> r
                == OrderBookEvent::Received(Order::MarketOrder(market_buy), seq)
            &&& (received.order_type == OrderType::Market && received.side == Side::Sell) ==> r
                == OrderBookEvent::Received(Order::MarketOrder(market_sell), seq)
        }),
{
    let seq = received.sequence;
    match received.order_type {
        OrderType::Limit => {
            let order = AtomicOrder {
                id: received.order_id,
                price: unwrap_or_zero(received.price, zero),
                size: unwrap_or_zero(received.size, zero),
            };
            match received.side {
                Side::Buy => OrderBookEvent::Received(Order::LimitOrder(LimitOrder::Bid(order)), seq),
                Side::Sell => OrderBookEvent::Received(
                    Order::LimitOrder(LimitOrder::Ask(order)),
                    seq,
                ),
            }
        },
        OrderType::Market => {
            let order = match received.side {
                Side::Buy => match (received.funds, received.size) {
                    (Some(funds), None) => MarketOrder::BuyWithFunds(funds),
                    (None, Some(size)) => MarketOrder::BuySize(size),
                    _ => MarketOrder::BuySize(zero),
                },
                Side::Sell => match (received.funds, received.size) {
                    (Some(funds), None) => MarketOrder::SellForFunds(funds),
                    (None, Some(size)) => MarketOrder::SellSize(size),
                    _ => MarketOrder::SellSize(zero),
                },
            };
            OrderBookEvent::Received(Order::MarketOrder(order), seq)
        },
    }
}

/// Convert an "open" message into an [`OrderBookEvent::Open`]: a bid (buy) or ask
/// (sell) at its price, sized by the remaining size.
pub fn order_book_event_from_open<A, T>(open: CoinbaseOrderBookL3Open<A, T>) -> (r:
    OrderBookEvent<A>)
    ensures
        ({
            let order = AtomicOrder { id: open.order_id, price: open.price, size: open.remaining_size };
            &&& open.side == Side::Buy ==> r == OrderBookEvent::Open(LimitOrder::Bid(order), open.sequence)
            &&& open.side == Side::Sell ==> r == OrderBookEvent::Open(LimitOrder::Ask(order), open.sequence)
        }),
{
    let order = AtomicOrder { id: open.order_id, price: open.price, size: open.remaining_size };
    match open.side {
        Side::Buy => OrderBookEvent::Open(LimitOrder::Bid(order), open.sequence),
        Side::Sell => OrderBookEvent::Open(LimitOrder::Ask(order), open.sequence),
    }
}

/// Convert a "done" message into an [`OrderBookEvent::Done`] of its order id.
pub fn order_book_event_from_done<A, T>(done: CoinbaseOrderBookL3Done<A, T>) -> (r: OrderBookEvent<
    A,
>)
    ensures
        r == OrderBookEvent::<A>::Done(done.order_id, done.sequence),
{
    OrderBookEvent::Done(done.order_id, done.sequence)
}

/// Convert a "change" message into an [`OrderBookEvent::Change`] of its order id to
/// its new size.
pub fn order_book_event_from_change<A, T>(change: CoinbaseOrderBookL3Change<A, T>) -> (r:
    OrderBookEvent<A>)
    ensures
        r == OrderBookEvent::Change(change.order_id, change.new_size, change.sequence),
{
    OrderBookEvent::Change(change.order_id, change.new_size, change.sequence)
}

} // verus!
