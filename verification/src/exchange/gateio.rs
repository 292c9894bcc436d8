//! [`Gateio`] exchanges (spot, USD and BTC margined perpetual futures): channel & market
//! names, subscription requests, subscription responses and message identifiers.

use crate::endpoint::{parse_url, spec_url_parses};
use crate::error::{code_failure_text, subscribe_code_failure, SocketError};
use crate::exchange::{ExchangeId, ExchangeSub, Named};
use crate::model::{Instrument, SubKind, Subscription, SubscriptionId};
use crate::text::{decimal, join3, join_piped, piped, spec_uppercase, str_eq, to_uppercase, u64_to_decimal};
use crate::time::utc_now_ms;
use crate::Identifier;
use std::marker::PhantomData;
use vstd::prelude::*;

verus! {

/// [`GateioSpot`] WebSocket server base url.
pub const WEBSOCKET_BASE_URL_GATEIO_SPOT: &'static str = "wss://api.gateio.ws/ws/v4/";

/// [`GateioFuturesUsd`] WebSocket server base url.
pub const WEBSOCKET_BASE_URL_GATEIO_FUTURES_USD: &'static str = "wss://fx-ws.gateio.ws/v4/ws/usdt";

/// [`GateioFuturesBtc`] WebSocket server base url.
pub const WEBSOCKET_BASE_URL_GATEIO_FUTURES_BTC: &'static str = "wss://fx-ws.gateio.ws/v4/ws/btc";

/// A [`Gateio`] server: which exchange it is and where it listens.
pub trait ExchangeServer {
    spec fn spec_id() -> ExchangeId;

    spec fn spec_websocket_url() -> Seq<char>;

    fn id() -> (r: ExchangeId)
        ensures
            r == Self::spec_id(),
    ;

    fn websocket_url() -> (r: &'static str)
        ensures
            r@ == Self::spec_websocket_url(),
    ;
}

/// [`Gateio`] spot server.
#[derive(Clone, Copy, Debug, Default)]
pub struct GateioServerSpot;

impl ExchangeServer for GateioServerSpot {
    open spec fn spec_id() -> ExchangeId {
        ExchangeId::GateioSpot
    }

    open spec fn spec_websocket_url() -> Seq<char> {
        WEBSOCKET_BASE_URL_GATEIO_SPOT@
    }

    fn id() -> (r: ExchangeId) {
        ExchangeId::GateioSpot
    }

    fn websocket_url() -> (r: &'static str) {
        WEBSOCKET_BASE_URL_GATEIO_SPOT
    }
}

/// [`Gateio`] USD margined perpetual futures server.
#[derive(Clone, Copy, Debug, Default)]
pub struct GateioServerFuturesUsd;

impl ExchangeServer for GateioServerFuturesUsd {
    open spec fn spec_id() -> ExchangeId {
        ExchangeId::GateioFuturesUsd
    }

    open spec fn spec_websocket_url() -> Seq<char> {
        WEBSOCKET_BASE_URL_GATEIO_FUTURES_USD@
    }

    fn id() -> (r: ExchangeId) {
        ExchangeId::GateioFuturesUsd
    }

    fn websocket_url() -> (r: &'static str) {
        WEBSOCKET_BASE_URL_GATEIO_FUTURES_USD
    }
}

/// [`Gateio`] BTC margined perpetual futures server.
#[derive(Clone, Copy, Debug, Default)]
pub struct GateioServerFuturesBtc;

impl ExchangeServer for GateioServerFuturesBtc {
    open spec fn spec_id() -> ExchangeId {
        ExchangeId::GateioFuturesBtc
    }

    open spec fn spec_websocket_url() -> Seq<char> {
        WEBSOCKET_BASE_URL_GATEIO_FUTURES_BTC@
    }

    fn id() -> (r: ExchangeId) {
        ExchangeId::GateioFuturesBtc
    }

    fn websocket_url() -> (r: &'static str) {
        WEBSOCKET_BASE_URL_GATEIO_FUTURES_BTC
    }
}

/// A [`Gateio`] channel to be subscribed to, eg/ `GateioChannel("spot.trades")`.
#[derive(Clone, Copy, Debug)]
pub struct GateioChannel(pub &'static str);

impl GateioChannel {
    /// Spot real-time trades channel: `"spot.trades"`.
    pub fn spot_trades() -> (r: GateioChannel)
        ensures
            r.0@ == "spot.trades"@,
    {
        GateioChannel("spot.trades")
    }

    /// Perpetual futures real-time trades channel: `"futures.trades"`.
    pub fn future_perpetual_trades() -> (r: GateioChannel)
        ensures
            r.0@ == "futures.trades"@,
    {
        GateioChannel("futures.trades")
    }
}

impl Named for GateioChannel {
    open spec fn name(&self) -> Seq<char> {
        self.0@
    }

    fn as_str(&self) -> (r: &str) {
        self.0
    }
}

/// The [`Gateio`] market name of an instrument: `"{BASE}_{QUOTE}"` uppercased.
pub open spec fn gateio_market_name(instrument: Instrument) -> Seq<char> {
    spec_uppercase(instrument.base@ + "_"@ + instrument.quote@)
}

/// A [`Gateio`] market to be subscribed to, eg/ `GateioMarket("BTC_USDT")`.
#[derive(Clone, Debug)]
pub struct GateioMarket(pub String);

impl GateioMarket {
    /// The market of `instrument`: `"{base}_{quote}"` uppercased.
    pub fn for_instrument(instrument: &Instrument) -> (r: GateioMarket)
        ensures
            r.0@ == gateio_market_name(*instrument),
    {
        let joined = join3(instrument.base.as_str(), "_", instrument.quote.as_str());
        GateioMarket(to_uppercase(joined.as_str()))
    }
}

impl Named for GateioMarket {
    open spec fn name(&self) -> Seq<char> {
        self.0@
    }

    fn as_str(&self) -> (r: &str) {
        self.0.as_str()
    }
}

impl Identifier<GateioMarket> for Subscription {
    open spec fn identifies(&self, id: GateioMarket) -> bool {
        id.0@ == gateio_market_name(self.instrument)
    }

    fn id(&self) -> (r: GateioMarket) {
        GateioMarket::for_instrument(&self.instrument)
    }
}

/// A [`Gateio`] subscription request, sent as the JSON object
/// `{"time": time, "channel": channel, "event": "subscribe", "payload": [market]}`.
#[derive(Debug)]
pub struct GateioSubRequest {
    pub time: i64,
    pub channel: String,
    pub event: &'static str,
    pub payload: Vec<String>,
}

impl GateioSubRequest {
    /// A `"subscribe"` request for `channel` of `market`, stamped with `time`
    /// (milliseconds since the UNIX epoch).
    pub fn new(time: i64, channel: &str, market: &str) -> (r: GateioSubRequest)
        ensures
            r.is_for(time, channel@, market@),
    {
        let mut payload = Vec::new();
        payload.push(String::from_str(market));
        GateioSubRequest { time, channel: String::from_str(channel), event: "subscribe", payload }
    }

    /// Whether this is a `"subscribe"` request for exactly `channel` of `market`, stamped
    /// with `time`.
    pub open spec fn is_for(&self, time: i64, channel: Seq<char>, market: Seq<char>) -> bool {
        &&& self.time == time
        &&& self.channel@ == channel
        &&& self.event@ == "subscribe"@
        &&& self.payload@.len() == 1
        &&& self.payload@[0]@ == market
    }
}

/// [`Gateio`] exchange, served by `Server`.
#[derive(Debug)]
pub struct Gateio<Server> {
    pub server: PhantomData<Server>,
}

/// [`Gateio`] spot exchange.
pub type GateioSpot = Gateio<GateioServerSpot>;

/// [`Gateio`] USD margined perpetual futures exchange.
pub type GateioFuturesUsd = Gateio<GateioServerFuturesUsd>;

/// [`Gateio`] BTC margined perpetual futures exchange.
pub type GateioFuturesBtc = Gateio<GateioServerFuturesBtc>;

impl<Server: ExchangeServer> Gateio<Server> {
    /// The [`ExchangeId`] of this exchange.
    pub fn exchange_id() -> (r: ExchangeId)
        ensures
            r == Server::spec_id(),
    {
        Server::id()
    }

    /// The server base url of this exchange.
    pub fn base_url() -> (r: &'static str)
        ensures
            r@ == Server::spec_websocket_url(),
    {
        Server::websocket_url()
    }

    /// The server url of this exchange.
    pub fn url() -> (r: Result<url::Url, SocketError>)
        ensures
            r is Ok <==> spec_url_parses(Server::spec_websocket_url()),
    {
        match parse_url(Server::websocket_url()) {
            Ok(u) => Ok(u),
            Err(e) => Err(SocketError::UrlParse(e)),
        }
    }

    /// The channel serving subscriptions of `kind`: public trades, on the spot channel
    /// for the spot server and on the futures channel for the futures servers.
    pub fn channel(kind: &SubKind) -> (r: Result<GateioChannel, SocketError>)
        ensures
            *kind == SubKind::Trade && Server::spec_id() == ExchangeId::GateioSpot ==> (r matches Ok(
                c,
            ) && c.0@ == "spot.trades"@),
            *kind == SubKind::Trade && Server::spec_id() != ExchangeId::GateioSpot ==> (r matches Ok(
                c,
            ) && c.0@ == "futures.trades"@),
            *kind != SubKind::Trade ==> (r matches Err(SocketError::Unsupported { entity, item })
                && entity@ == Server::spec_id().name() && item@ == kind.name()),
    {
        match kind {
            SubKind::Trade => {
                if Server::id() == ExchangeId::GateioSpot {
                    Ok(GateioChannel::spot_trades())
                } else {
                    Ok(GateioChannel::future_perpetual_trades())
                }
            },
            _ => Err(SocketError::Unsupported { entity: Server::id().as_str(), item: kind.to_text() }),
        }
    }

    /// One `"subscribe"` request per channel & market pair, in order, each stamped with
    /// the current time (milliseconds since the UNIX epoch) when it is built.
    pub fn requests(exchange_subs: Vec<ExchangeSub<GateioChannel, GateioMarket>>) -> (r: Vec<
        GateioSubRequest,
    >)
        ensures
            r@.len() == exchange_subs@.len(),
            forall|i: int|
                0 <= i < r@.len() ==> (#[trigger] r@[i]).is_for(
                    r@[i].time,
                    exchange_subs@[i].channel.0@,
                    exchange_subs@[i].market.0@,
                ),
    {
        let mut out: Vec<GateioSubRequest> = Vec::new();
        let mut i: usize = 0;
        while i < exchange_subs.len()
            invariant
                i <= exchange_subs@.len(),
                out@.len() == i,
                forall|j: int|
                    0 <= j < i ==> (#[trigger] out@[j]).is_for(
                        out@[j].time,
                        exchange_subs@[j].channel.0@,
                        exchange_subs@[j].market.0@,
                    ),
            decreases exchange_subs@.len() - i,
        {
            let sub = &exchange_subs[i];
            out.push(GateioSubRequest::new(utc_now_ms(), sub.channel.as_str(), sub.market.as_str()));
            i = i + 1;
        }
        out
    }

    /// The name this exchange is serialised as: the name of its [`ExchangeId`].
    pub fn name() -> (r: &'static str)
        ensures
            r@ == Server::spec_id().name(),
    {
        Server::id().as_str()
    }

    /// Deserialise this exchange from its name: exactly the name of its [`ExchangeId`].
    pub fn from_name(name: &str) -> (r: Option<Gateio<Server>>)
        ensures
            r is Some <==> name@ == Server::spec_id().name(),
    {
        if str_eq(name, Server::id().as_str()) {
            Some(Gateio { server: PhantomData })
        } else {
            None
        }
    }
}

/// [`Gateio`] error of a failed request.
#[derive(Clone, Debug)]
pub struct GateioError {
    pub code: u8,
    pub message: String,
}

/// [`Gateio`] subscription result.
#[derive(Clone, Debug)]
pub struct GateioSubResult {
    pub status: String,
}

/// [`Gateio`] WebSocket message.
#[derive(Clone, Debug)]
pub struct GateioMessage<T> {
    pub channel: String,
    pub error: Option<GateioError>,
    pub data: T,
}

/// [`Gateio`] subscription response.
pub type GateioSubResponse = GateioMessage<GateioSubResult>;

impl GateioMessage<GateioSubResult> {
    /// Accept a response that carries no error; reject one that does, with its code and
    /// message.
    pub fn validate(self) -> (r: Result<GateioMessage<GateioSubResult>, SocketError>)
        ensures
            self.error is None ==> r == Ok::<GateioMessage<GateioSubResult>, SocketError>(self),
            self.error matches Some(e) ==> (r matches Err(SocketError::Subscribe(m)) && m@
                == code_failure_text(decimal(e.code as nat), e.message@)),
    {
        match &self.error {
            None => Ok(self),
            Some(failure) => {
                let code = u64_to_decimal(failure.code as u64);
                Err(subscribe_code_failure(code.as_str(), failure.message.as_str()))
            },
        }
    }
}

/// The [`SubscriptionId`] of a [`Gateio`] futures trades message of `channel`: the
/// channel joined with the market of its first trade (`"{channel}|{market}"`), or none
/// if it holds no trade.
pub fn futures_trades_subscription_id(channel: &str, first_market: Option<&str>) -> (r: Option<
    SubscriptionId,
>)
    ensures
        first_market matches Some(m) ==> (r matches Some(id) && id.text() == piped(channel@, m@)),
        first_market is None ==> r is None,
{
    match first_market {
        Some(market) => Some(SubscriptionId(join_piped(channel, market))),
        None => None,
    }
}

} // verus!
