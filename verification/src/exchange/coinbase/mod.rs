//! [`Coinbase`] exchange: channel & market names, subscription requests, subscription
//! responses and the conversion of level 3 order book messages.

use crate::endpoint::parse_url;
use crate::error::{failure_text, subscribe_failure, SocketError};
use crate::exchange::{accepts_name, ExchangeId, ExchangeSub, Named};
use crate::model::{Instrument, SubKind, Subscription, SubscriptionId};
use crate::text::{join3, join_piped, piped, spec_uppercase, str_eq, to_uppercase};
use crate::Identifier;
use vstd::prelude::*;

pub mod orderbook;

verus! {

/// [`Coinbase`] server base url.
pub const BASE_URL_COINBASE: &'static str = "wss://ws-feed.exchange.coinbase.com";

/// [`CoinbasePro`] server base url.
pub const BASE_URL_COINBASE_PRO: &'static str = "wss://ws-feed.exchange.coinbase.com";

/// A [`Coinbase`] channel to be subscribed to, eg/ `CoinbaseChannel("matches")`.
#[derive(Debug, Clone, Copy)]
pub struct CoinbaseChannel(pub &'static str);

impl CoinbaseChannel {
    /// [`Coinbase`] real-time trades channel: `"matches"`.
    pub fn trades() -> (r: CoinbaseChannel)
        ensures
            r.0@ == "matches"@,
    {
        CoinbaseChannel("matches")
    }

    /// [`Coinbase`] level 3 order book channel: `"full"`.
    pub fn order_book_l3() -> (r: CoinbaseChannel)
        ensures
            r.0@ == "full"@,
    {
        CoinbaseChannel("full")
    }

    /// The channel that serves subscriptions of `kind`: only public trades are
    /// supported.
    pub fn for_kind(kind: &SubKind) -> (r: Result<CoinbaseChannel, SocketError>)
        ensures
            *kind == SubKind::Trade ==> (r matches Ok(c) && c.0@ == "matches"@),
            *kind != SubKind::Trade ==> (r matches Err(SocketError::Unsupported { entity, item })
                && entity@ == "coinbase"@ && item@ == kind.name()),
    {
        match kind {
            SubKind::Trade => Ok(CoinbaseChannel::trades()),
            _ => Err(
                SocketError::Unsupported {
                    entity: ExchangeId::Coinbase.as_str(),
                    item: kind.to_text(),
                },
            ),
        }
    }
}

impl Named for CoinbaseChannel {
    open spec fn name(&self) -> Seq<char> {
        self.0@
    }

    fn as_str(&self) -> (r: &str) {
        self.0
    }
}

/// The [`Coinbase`] market name of an instrument: `"{BASE}-{QUOTE}"` uppercased.
pub open spec fn coinbase_market_name(instrument: Instrument) -> Seq<char> {
    spec_uppercase(instrument.base@ + "-"@ + instrument.quote@)
}

/// A [`Coinbase`] market to be subscribed to, eg/ `CoinbaseMarket("BTC-USD")`.
#[derive(Debug, Clone)]
pub struct CoinbaseMarket(pub String);

impl CoinbaseMarket {
    /// The market of `instrument`: `"{base}-{quote}"` uppercased.
    pub fn for_instrument(instrument: &Instrument) -> (r: CoinbaseMarket)
        ensures
            r.0@ == coinbase_market_name(*instrument),
    {
        let joined = join3(instrument.base.as_str(), "-", instrument.quote.as_str());
        CoinbaseMarket(to_uppercase(joined.as_str()))
    }
}

impl Named for CoinbaseMarket {
    open spec fn name(&self) -> Seq<char> {
        self.0@
    }

    fn as_str(&self) -> (r: &str) {
        self.0.as_str()
    }
}

impl Identifier<CoinbaseMarket> for Subscription {
    open spec fn identifies(&self, id: CoinbaseMarket) -> bool {
        id.0@ == coinbase_market_name(self.instrument)
    }

    fn id(&self) -> (r: CoinbaseMarket) {
        let m = CoinbaseMarket::for_instrument(&self.instrument);
        m
    }
}

/// Generate a [`Coinbase`] [`SubscriptionId`] from the channel and market provided:
/// `"{channel}|{market}"`, eg/ `SubscriptionId("matches|ETH-USD")`.
pub fn subscription_id(channel: CoinbaseChannel, market: &str) -> (r: SubscriptionId)
    ensures
        r.text() == piped(channel.0@, market@),
{
    SubscriptionId(join_piped(channel.0, market))
}

/// Channel & market metadata of one [`Coinbase`] subscription.
pub struct CoinbaseSubMeta {
    pub channel: CoinbaseChannel,
    pub market: String,
}

impl CoinbaseSubMeta {
    /// Map a Barter [`Subscription`] into [`Coinbase`] channel & market metadata.
    pub fn new(sub: &Subscription) -> (r: Result<CoinbaseSubMeta, SocketError>)
        ensures
            sub.kind == SubKind::Trade ==> (r matches Ok(m) && m.channel.0@ == "matches"@
                && m.market@ == coinbase_market_name(sub.instrument)),
            sub.kind != SubKind::Trade ==> (r matches Err(SocketError::Unsupported { entity, item })
                && entity@ == "coinbase"@ && item@ == sub.kind.name()),
    {
        let channel = CoinbaseChannel::for_kind(&sub.kind)?;
        let market = CoinbaseMarket::for_instrument(&sub.instrument);
        Ok(CoinbaseSubMeta { channel, market: market.0 })
    }

    /// The [`SubscriptionId`] of this subscription: `"{channel}|{market}"`.
    pub fn id(&self) -> (r: SubscriptionId)
        ensures
            r.text() == piped(self.channel.0@, self.market@),
    {
        subscription_id(self.channel, self.market.as_str())
    }

    /// One subscription request per subscription.
    pub fn requests(subscriptions: Vec<CoinbaseSubMeta>) -> (r: Vec<CoinbaseSubRequest>)
        ensures
            r@.len() == subscriptions@.len(),
            forall|i: int|
                0 <= i < r@.len() ==> (#[trigger] r@[i]).is_for(
                    subscriptions@[i].channel.0@,
                    subscriptions@[i].market@,
                ),
    {
        let mut out: Vec<CoinbaseSubRequest> = Vec::new();
        let mut i: usize = 0;
        while i < subscriptions.len()
            invariant
                i <= subscriptions@.len(),
                out@.len() == i,
                forall|j: int|
                    0 <= j < i ==> (#[trigger] out@[j]).is_for(
                        subscriptions@[j].channel.0@,
                        subscriptions@[j].market@,
                    ),
            decreases subscriptions@.len() - i,
        {
            let meta = &subscriptions[i];
            out.push(CoinbaseSubRequest::new(meta.channel.0, meta.market.as_str()));
            i = i + 1;
        }
        out
    }
}

/// A [`Coinbase`] subscription request, sent as the JSON object
/// `{"type": "subscribe", "product_ids": [..], "channels": [..]}`.
#[derive(Debug)]
pub struct CoinbaseSubRequest {
    pub kind: &'static str,
    pub product_ids: Vec<String>,
    pub channels: Vec<String>,
}

impl CoinbaseSubRequest {
    /// Whether this is a `"subscribe"` request for exactly `channel` of `market`.
    pub open spec fn is_for(&self, channel: Seq<char>, market: Seq<char>) -> bool {
        &&& self.kind@ == "subscribe"@
        &&& self.product_ids@.len() == 1
        &&& self.product_ids@[0]@ == market
        &&& self.channels@.len() == 1
        &&& self.channels@[0]@ == channel
    }

    /// A request subscribing to `channel` of `market`.
    pub fn new(channel: &str, market: &str) -> (r: CoinbaseSubRequest)
        ensures
            r.is_for(channel@, market@),
    {
        let mut product_ids = Vec::new();
        product_ids.push(String::from_str(market));
        let mut channels = Vec::new();
        channels.push(String::from_str(channel));
        CoinbaseSubRequest { kind: "subscribe", product_ids, channels }
    }
}

/// [`Coinbase`] exchange.
#[derive(Debug, Clone, Copy)]
pub struct Coinbase;

impl Coinbase {
    /// The [`ExchangeId`] of [`Coinbase`].
    pub const ID: ExchangeId = ExchangeId::Coinbase;

    /// [`Coinbase`] real-time trades channel name.
    pub const CHANNEL_TRADES: &'static str = "matches";

    /// [`Coinbase`] level 3 order book channel name.
    pub const CHANNEL_ORDER_BOOK_L3: &'static str = "full";

    /// The server url of [`Coinbase`].
    pub fn url() -> (r: Result<url::Url, SocketError>)
        ensures
            r is Ok <==> crate::endpoint::spec_url_parses(BASE_URL_COINBASE@),
    {
        match parse_url(BASE_URL_COINBASE) {
            Ok(u) => Ok(u),
            Err(e) => Err(SocketError::UrlParse(e)),
        }
    }

    /// One `"subscribe"` request per channel & market pair, in order.
    pub fn requests(exchange_subs: Vec<ExchangeSub<CoinbaseChannel, CoinbaseMarket>>) -> (r: Vec<
        CoinbaseSubRequest,
    >)
        ensures
            r@.len() == exchange_subs@.len(),
            forall|i: int|
                0 <= i < r@.len() ==> (#[trigger] r@[i]).is_for(
                    exchange_subs@[i].channel.0@,
                    exchange_subs@[i].market.0@,
                ),
    {
        let mut out: Vec<CoinbaseSubRequest> = Vec::new();
        let mut i: usize = 0;
        while i < exchange_subs.len()
            invariant
                i <= exchange_subs@.len(),
                out@.len() == i,
                forall|j: int|
                    0 <= j < i ==> (#[trigger] out@[j]).is_for(
                        exchange_subs@[j].channel.0@,
                        exchange_subs@[j].market.0@,
                    ),
            decreases exchange_subs@.len() - i,
        {
            let sub = &exchange_subs[i];
            out.push(CoinbaseSubRequest::new(sub.channel.as_str(), sub.market.as_str()));
            i = i + 1;
        }
        out
    }

    /// The name [`Coinbase`] is serialised as: `"coinbase"`.
    pub fn name() -> (r: &'static str)
        ensures
            r@ == ExchangeId::Coinbase.name(),
    {
        ExchangeId::Coinbase.as_str()
    }

    /// Deserialise [`Coinbase`] from its name: `"Coinbase"` or `"coinbase"`.
    pub fn from_name(name: &str) -> (r: Option<Coinbase>)
        ensures
            r is Some <==> accepts_name(ExchangeId::Coinbase, name@),
    {
        if str_eq(name, "Coinbase") || str_eq(name, "coinbase") {
            Some(Coinbase)
        } else {
            None
        }
    }

    /// Deserialise a [`Coinbase`] trade "product_id" (eg/ "BTC-USD") as its
    /// [`SubscriptionId`] (eg/ "matches|BTC-USD").
    pub fn trade_subscription_id(product_id: &str) -> (r: SubscriptionId)
        ensures
            r.text() == piped("matches"@, product_id@),
    {
        subscription_id(CoinbaseChannel::trades(), product_id)
    }

    /// Deserialise a [`Coinbase`] level 3 order book message "product_id" (eg/ "BTC-USD")
    /// as its [`SubscriptionId`] (eg/ "full|BTC-USD").
    pub fn order_book_l3_subscription_id(product_id: &str) -> (r: SubscriptionId)
        ensures
            r.text() == piped("full"@, product_id@),
    {
        subscription_id(CoinbaseChannel::order_book_l3(), product_id)
    }
}

/// [`CoinbasePro`] exchange.
#[derive(Debug, Clone, Copy)]
pub struct CoinbasePro;

impl CoinbasePro {
    /// The [`ExchangeId`] of [`CoinbasePro`].
    pub fn exchange_id() -> (r: ExchangeId)
        ensures
            r == ExchangeId::CoinbasePro,
    {
        ExchangeId::CoinbasePro
    }

    /// The server base url of [`CoinbasePro`].
    pub fn base_url() -> (r: &'static str)
        ensures
            r@ == BASE_URL_COINBASE_PRO@,
    {
        BASE_URL_COINBASE_PRO
    }
}

/// Product ids of a successful channel subscription, eg/ channel "matches" with
/// product ids ["ETH-USD"].
#[derive(Debug, Clone)]
pub struct CoinbaseChannels {
    pub channel: String,
    pub product_ids: Vec<String>,
}

/// [`Coinbase`] WebSocket subscription response.
#[derive(Debug)]
pub enum CoinbaseSubResponse {
    Subscribed { channels: Vec<CoinbaseChannels> },
    Error { reason: String },
}

impl CoinbaseSubResponse {
    /// Accept a `Subscribed` response; reject an `Error` response with its reason.
    pub fn validate(self) -> (r: Result<CoinbaseSubResponse, SocketError>)
        ensures
            self is Subscribed ==> r == Ok::<CoinbaseSubResponse, SocketError>(self),
            self matches CoinbaseSubResponse::Error { reason } ==> (r matches Err(
                SocketError::Subscribe(m),
            ) && m@ == failure_text(reason@)),
    {
        match &self {
            CoinbaseSubResponse::Subscribed { .. } => Ok(self),
            CoinbaseSubResponse::Error { reason } => Err(subscribe_failure(reason.as_str())),
        }
    }
}

/// Errors related to [`Coinbase`] order messages.
#[derive(Debug)]
pub enum CoinbaseMsgError {
    NoSequence,
    NoType,
    NoOrderID,
    InvalidOpen,
    InvalidUpdate,
    UnhandledType(String),
}

impl CoinbaseMsgError {
    /// The message of this error (its `Display` text).
    pub open spec fn text(&self) -> Seq<char> {
        match self {
            CoinbaseMsgError::NoSequence => "Order message is missing a sequence."@,
            CoinbaseMsgError::NoType => "Order message is missing a type."@,
            CoinbaseMsgError::NoOrderID => "Order message is missing an order id."@,
            CoinbaseMsgError::InvalidOpen => "Invalid open order message is missing a key field"@,
            CoinbaseMsgError::InvalidUpdate => "Invalid change order message is missing a key field"@,
            CoinbaseMsgError::UnhandledType(t) => "Unhandled order message type: "@ + t@,
        }
    }

    /// The message of this error.
    pub fn message(&self) -> (r: String)
        ensures
            r@ == self.text(),
    {
        match self {
            CoinbaseMsgError::NoSequence => String::from_str("Order message is missing a sequence."),
            CoinbaseMsgError::NoType => String::from_str("Order message is missing a type."),
            CoinbaseMsgError::NoOrderID => String::from_str("Order message is missing an order id."),
            CoinbaseMsgError::InvalidOpen => String::from_str(
                "Invalid open order message is missing a key field",
            ),
            CoinbaseMsgError::InvalidUpdate => String::from_str(
                "Invalid change order message is missing a key field",
            ),
            CoinbaseMsgError::UnhandledType(t) => {
                let s = String::from_str("Unhandled order message type: ");
                s.concat(t.as_str())
            },
        }
    }
}

} // verus!
