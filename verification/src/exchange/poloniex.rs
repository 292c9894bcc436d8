//! [`Poloniex`] exchange: channel & market names, subscription requests, subscription
//! responses and the identifier of its trade messages.

use crate::endpoint::parse_url;
use crate::error::SocketError;
use crate::exchange::{accepts_name, ExchangeId, ExchangeSub, Named};
use crate::model::{Instrument, SubKind, Subscription, SubscriptionId};
use crate::text::{str_eq, join3, join_piped, piped, spec_uppercase, to_uppercase};
use crate::Identifier;
use vstd::prelude::*;

verus! {

/// [`Poloniex`] server base url.
pub const BASE_URL_POLONIEX: &'static str = "wss://ws.poloniex.com/ws/public";

/// A [`Poloniex`] channel to be subscribed to, eg/ `PoloniexChannel("trades")`.
#[derive(Clone, Copy, Debug)]
pub struct PoloniexChannel(pub &'static str);

impl PoloniexChannel {
    /// [`Poloniex`] real-time trades channel: `"trades"`.
    pub fn trades() -> (r: PoloniexChannel)
        ensures
            r.0@ == "trades"@,
    {
        PoloniexChannel("trades")
    }

    /// The channel that serves subscriptions of `kind`: only public trades are
    /// supported.
    pub fn for_kind(kind: &SubKind) -> (r: Result<PoloniexChannel, SocketError>)
        ensures
            *kind == SubKind::Trade ==> (r matches Ok(c) && c.0@ == "trades"@),
            *kind != SubKind::Trade ==> (r matches Err(SocketError::Unsupported { entity, item })
                && entity@ == "poloniex"@ && item@ == kind.name()),
    {
        match kind {
            SubKind::Trade => Ok(PoloniexChannel::trades()),
            _ => Err(
                SocketError::Unsupported {
                    entity: ExchangeId::Poloniex.as_str(),
                    item: kind.to_text(),
                },
            ),
        }
    }
}

impl Named for PoloniexChannel {
    open spec fn name(&self) -> Seq<char> {
        self.0@
    }

    fn as_str(&self) -> (r: &str) {
        self.0
    }
}

/// The [`Poloniex`] market name of an instrument: `"{BASE}_{QUOTE}"` uppercased.
pub open spec fn poloniex_market_name(instrument: Instrument) -> Seq<char> {
    spec_uppercase(instrument.base@ + "_"@ + instrument.quote@)
}

/// A [`Poloniex`] market to be subscribed to, eg/ `PoloniexMarket("BTC_USDT")`.
#[derive(Clone, Debug)]
pub struct PoloniexMarket(pub String);

impl PoloniexMarket {
    /// The market of `instrument`: `"{base}_{quote}"` uppercased.
    pub fn for_instrument(instrument: &Instrument) -> (r: PoloniexMarket)
        ensures
            r.0@ == poloniex_market_name(*instrument),
    {
        let joined = join3(instrument.base.as_str(), "_", instrument.quote.as_str());
        PoloniexMarket(to_uppercase(joined.as_str()))
    }
}

impl Named for PoloniexMarket {
    open spec fn name(&self) -> Seq<char> {
        self.0@
    }

    fn as_str(&self) -> (r: &str) {
        self.0.as_str()
    }
}

impl Identifier<PoloniexMarket> for Subscription {
    open spec fn identifies(&self, id: PoloniexMarket) -> bool {
        id.0@ == poloniex_market_name(self.instrument)
    }

    fn id(&self) -> (r: PoloniexMarket) {
        PoloniexMarket::for_instrument(&self.instrument)
    }
}

/// A [`Poloniex`] subscription request, sent as the JSON object
/// `{"event": "subscribe", "channel": [channel], "symbols": [market]}`.
#[derive(Debug)]
pub struct PoloniexSubRequest {
    pub event: &'static str,
    pub channel: Vec<String>,
    pub symbols: Vec<String>,
}

impl PoloniexSubRequest {
    /// Whether this is a `"subscribe"` request for exactly `channel` of `market`.
    pub open spec fn is_for(&self, channel: Seq<char>, market: Seq<char>) -> bool {
        &&& self.event@ == "subscribe"@
        &&& self.channel@.len() == 1
        &&& self.channel@[0]@ == channel
        &&& self.symbols@.len() == 1
        &&& self.symbols@[0]@ == market
    }

    /// A request subscribing to `channel` of `market`.
    pub fn new(channel: &str, market: &str) -> (r: PoloniexSubRequest)
        ensures
            r.is_for(channel@, market@),
    {
        let mut channels = Vec::new();
        channels.push(String::from_str(channel));
        let mut symbols = Vec::new();
        symbols.push(String::from_str(market));
        PoloniexSubRequest { event: "subscribe", channel: channels, symbols }
    }
}

/// [`Poloniex`] exchange.
#[derive(Clone, Copy, Debug)]
pub struct Poloniex;

impl Poloniex {
    /// The name [`Poloniex`] is serialised as: the name of its [`ExchangeId`].
    pub fn name() -> (r: &'static str)
        ensures
            r@ == ExchangeId::Poloniex.name(),
    {
        ExchangeId::Poloniex.as_str()
    }

    /// Deserialise [`Poloniex`] from its name: exactly the name of its [`ExchangeId`].
    pub fn from_name(name: &str) -> (r: Option<Poloniex>)
        ensures
            r is Some <==> accepts_name(ExchangeId::Poloniex, name@),
    {
        if str_eq(name, ExchangeId::Poloniex.as_str()) {
            Some(Poloniex)
        } else {
            None
        }
    }
    /// The [`ExchangeId`] of [`Poloniex`].
    pub const ID: ExchangeId = ExchangeId::Poloniex;

    /// The server url of [`Poloniex`].
    pub fn url() -> (r: Result<url::Url, SocketError>)
        ensures
            r is Ok <==> crate::endpoint::spec_url_parses(BASE_URL_POLONIEX@),
    {
        match parse_url(BASE_URL_POLONIEX) {
            Ok(u) => Ok(u),
            Err(e) => Err(SocketError::UrlParse(e)),
        }
    }

    /// One `"subscribe"` request per channel & market pair, in order.
    pub fn requests(exchange_subs: Vec<ExchangeSub<PoloniexChannel, PoloniexMarket>>) -> (r: Vec<
        PoloniexSubRequest,
    >)
        ensures
            r@.len() == exchange_subs@.len(),
            forall|i: int|
                0 <= i < r@.len() ==> (#[trigger] r@[i]).is_for(
                    exchange_subs@[i].channel.0@,
                    exchange_subs@[i].market.0@,
                ),
    {
        let mut out: Vec<PoloniexSubRequest> = Vec::new();
        let mut i: usize = 0;
        while i < exchange_subs.len()
            invariant
                i <= exchange_subs@.len(),
                out@.len() == i,
                forall|j: int|
                    0 <= j < i ==> (#[trigger] out@[j]).is_for(
                        exchange_subs@[j].channel.0@,
                        exchange_subs@[j].market.0@,
                    ),
            decreases exchange_subs@.len() - i,
        {
            let sub = &exchange_subs[i];
            out.push(PoloniexSubRequest::new(sub.channel.as_str(), sub.market.as_str()));
            i = i + 1;
        }
        out
    }
}

/// [`Poloniex`] message received in response to WebSocket subscription requests.
#[derive(Clone, Debug)]
pub enum PoloniexSubResponse {
    Subscribed,
    Error { message: String },
}

/// The message of the error a failed [`Poloniex`] subscription is answered with.
pub open spec fn poloniex_failure_text(message: Seq<char>) -> Seq<char> {
    "received failure subscription with message: "@ + message
}

impl PoloniexSubResponse {
    /// Accept a `Subscribed` response; reject an `Error` response with its message.
    pub fn validate(self) -> (r: Result<PoloniexSubResponse, SocketError>)
        ensures
            self is Subscribed ==> r == Ok::<PoloniexSubResponse, SocketError>(self),
            self matches PoloniexSubResponse::Error { message } ==> (r matches Err(
                SocketError::Subscribe(m),
            ) && m@ == poloniex_failure_text(message@)),
    {
        match self {
            PoloniexSubResponse::Subscribed => Ok(self),
            PoloniexSubResponse::Error { message } => {
                let text = String::from_str("received failure subscription with message: ");
                Err(SocketError::Subscribe(text.concat(message.as_str())))
            },
        }
    }
}

/// [`Poloniex`] message of a channel, holding a batch of data items.
#[derive(Clone, Debug)]
pub struct PoloniexMessage<T> {
    pub channel: String,
    pub data: Vec<T>,
}

/// The [`SubscriptionId`] of a [`Poloniex`] message of `channel`: the channel joined with
/// the symbol of its first item (`"{channel}|{symbol}"`), or none if it holds no item.
pub fn poloniex_message_id(channel: &str, first_symbol: Option<&str>) -> (r: Option<SubscriptionId>)
    ensures
        first_symbol matches Some(s) ==> (r matches Some(id) && id.text() == piped(channel@, s@)),
        first_symbol is None ==> r is None,
{
    match first_symbol {
        Some(symbol) => Some(SubscriptionId(join_piped(channel, symbol))),
        None => None,
    }
}

} // verus!
