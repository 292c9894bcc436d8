//! Exchange identifiers and the channel & market pair from which each exchange builds
//! its subscription requests and subscription identifiers.

use crate::model::{SubscriptionId, Subscription};
use crate::text::{join_piped, lemma_piped_injective, piped};
use crate::Identifier;
use vstd::prelude::*;

pub mod coinbase;
pub mod deribit;
pub mod ftx;
pub mod gateio;
pub mod kraken;
pub mod kraken_futures;
pub mod kucoin;
pub mod okx;
pub mod poloniex;
pub mod subscription_ids;

verus! {

/// Text of an exchange specific channel or market name.
pub trait Named {
    spec fn name(&self) -> Seq<char>;

    fn as_str(&self) -> (r: &str)
        ensures
            r@ == self.name(),
    ;
}

/// An exchange specific channel & market combination, used to build the subscription
/// request sent to the exchange and the [`SubscriptionId`] of the resulting stream.
///
/// eg/ `ExchangeSub { channel: KrakenChannel("trade"), market: KrakenMarket("XBT/USD") }`
#[derive(Clone, Debug)]
pub struct ExchangeSub<Channel, Market> {
    pub channel: Channel,
    pub market: Market,
}

impl<Channel: Named, Market: Named> ExchangeSub<Channel, Market> {
    /// The [`SubscriptionId`] text of this channel & market: `"{channel}|{market}"`.
    pub open spec fn id_text(&self) -> Seq<char> {
        piped(self.channel.name(), self.market.name())
    }

    /// Construct from the channel & market the [`Subscription`] identifies.
    pub fn new<S: Identifier<Channel> + Identifier<Market>>(sub: &S) -> (r: Self)
        ensures
            <S as Identifier<Channel>>::identifies(sub, r.channel),
            <S as Identifier<Market>>::identifies(sub, r.market),
    {
        ExchangeSub { channel: sub.id(), market: sub.id() }
    }

    /// Construct from a channel & market pair.
    pub fn from_pair(channel: Channel, market: Market) -> (r: Self)
        ensures
            r.channel == channel,
            r.market == market,
    {
        ExchangeSub { channel, market }
    }

    /// The [`SubscriptionId`] of this channel & market: `"{channel}|{market}"`.
    pub fn id(&self) -> (r: SubscriptionId)
        ensures
            r.text() == self.id_text(),
    {
        SubscriptionId(join_piped(self.channel.as_str(), self.market.as_str()))
    }
}

/// Distinct channel & market pairs get distinct subscription ids, where channel names
/// hold no `'|'`: the id of a message's stream determines its channel and market.
pub proof fn lemma_exchange_sub_ids_distinct<Channel: Named, Market: Named>(
    a: ExchangeSub<Channel, Market>,
    b: ExchangeSub<Channel, Market>,
)
    requires
        !a.channel.name().contains('|'),
        !b.channel.name().contains('|'),
        a.id_text() == b.id_text(),
    ensures
        a.channel.name() == b.channel.name(),
        a.market.name() == b.market.name(),
{
    lemma_piped_injective(a.channel.name(), a.market.name(), b.channel.name(), b.market.name());
}

/// Unique identifier of an exchange server.
#[derive(Clone, Copy, Debug, PartialEq, Eq, Structural)]
pub enum ExchangeId {
    BinanceFuturesUsd,
    BinanceSpot,
    Bitfinex,
    Coinbase,
    CoinbasePro,
    Deribit,
    Ftx,
    GateioSpot,
    GateioFuturesUsd,
    GateioFuturesBtc,
    Kraken,
    KrakenFuturesUsd,
    Kucoin,
    Okx,
    Poloniex,
}

impl ExchangeId {
    /// The name of this exchange, eg/ `"binance_spot"`.
    pub open spec fn name(self) -> Seq<char> {
        match self {
            ExchangeId::BinanceFuturesUsd => "binance_futures_usd"@,
            ExchangeId::BinanceSpot => "binance_spot"@,
            ExchangeId::Bitfinex => "bitfinex"@,
            ExchangeId::Coinbase => "coinbase"@,
            ExchangeId::CoinbasePro => "coinbase_pro"@,
            ExchangeId::Deribit => "deribit"@,
            ExchangeId::Ftx => "ftx"@,
            ExchangeId::GateioSpot => "gateio_spot"@,
            ExchangeId::GateioFuturesUsd => "gateio_futures_usd"@,
            ExchangeId::GateioFuturesBtc => "gateio_futures_btc"@,
            ExchangeId::Kraken => "kraken"@,
            ExchangeId::KrakenFuturesUsd => "kraken_futures_usd"@,
            ExchangeId::Kucoin => "kucoin"@,
            ExchangeId::Okx => "okx"@,
            ExchangeId::Poloniex => "poloniex"@,
        }
    }

    /// Return the `&str` representation of this [`ExchangeId`].
    pub fn as_str(&self) -> (r: &'static str)
        ensures
            r@ == self.name(),
    {
        match self {
            ExchangeId::BinanceFuturesUsd => "binance_futures_usd",
            ExchangeId::BinanceSpot => "binance_spot",
            ExchangeId::Bitfinex => "bitfinex",
            ExchangeId::Coinbase => "coinbase",
            ExchangeId::CoinbasePro => "coinbase_pro",
            ExchangeId::Deribit => "deribit",
            ExchangeId::Ftx => "ftx",
            ExchangeId::GateioSpot => "gateio_spot",
            ExchangeId::GateioFuturesUsd => "gateio_futures_usd",
            ExchangeId::GateioFuturesBtc => "gateio_futures_btc",
            ExchangeId::Kraken => "kraken",
            ExchangeId::KrakenFuturesUsd => "kraken_futures_usd",
            ExchangeId::Kucoin => "kucoin",
            ExchangeId::Okx => "okx",
            ExchangeId::Poloniex => "poloniex",
        }
    }

    /// Whether this exchange supports the ingestion of spot market data.
    pub fn supports_spot(&self) -> (r: bool)
        ensures
            r == (*self != ExchangeId::BinanceFuturesUsd),
    {
        match self {
            ExchangeId::BinanceFuturesUsd => false,
            _ => true,
        }
    }

    /// Whether this exchange supports the collection of futures market data.
    pub fn supports_futures(&self) -> (r: bool)
        ensures
            r == (*self == ExchangeId::BinanceFuturesUsd || *self == ExchangeId::Okx),
    {
        match self {
            ExchangeId::BinanceFuturesUsd => true,
            ExchangeId::Okx => true,
            _ => false,
        }
    }

    /// Whether this exchange supports the collection of public trades.
    pub fn supports_trades(&self) -> (r: bool)
        ensures
            r,
    {
        match self {
            _ => true,
        }
    }

    /// Whether this exchange supports the collection of liquidation orders.
    pub fn supports_liquidations(&self) -> (r: bool)
        ensures
            r == (*self == ExchangeId::BinanceFuturesUsd),
    {
        match self {
            ExchangeId::BinanceFuturesUsd => true,
            _ => false,
        }
    }
}

/// Distinct exchanges have distinct names, so an [`ExchangeId`] is recovered from its
/// `&str` representation (the text it is displayed and serialised as).
pub proof fn lemma_exchange_name_injective(a: ExchangeId, b: ExchangeId)
    ensures
        a.name() == b.name() <==> a == b,
{
    reveal_strlit("binance_futures_usd");
    reveal_strlit("binance_spot");
    reveal_strlit("bitfinex");
    reveal_strlit("coinbase");
    reveal_strlit("coinbase_pro");
    reveal_strlit("deribit");
    reveal_strlit("ftx");
    reveal_strlit("gateio_spot");
    reveal_strlit("gateio_futures_usd");
    reveal_strlit("gateio_futures_btc");
    reveal_strlit("kraken");
    reveal_strlit("kraken_futures_usd");
    reveal_strlit("kucoin");
    reveal_strlit("okx");
    reveal_strlit("poloniex");
    if a.name() == b.name() {
        assert(a.name().len() == b.name().len());
        assert(a.name()[0] == b.name()[0]);
        assert(a.name()[1] == b.name()[1]);
        if a.name().len() > 15 {
            assert(a.name()[15] == b.name()[15]);
        }
    }
}

/// Whether the text `name` deserialises as the exchange `id`: its name, and for
/// [`Coinbase`](coinbase::Coinbase) also `"Coinbase"`.
pub open spec fn accepts_name(id: ExchangeId, name: Seq<char>) -> bool {
    name == id.name() || (id == ExchangeId::Coinbase && name == "Coinbase"@)
}

/// Every exchange is deserialised from the name it is serialised as, and no text is
/// deserialised as two different exchanges.
pub proof fn lemma_exchange_name_round_trip(a: ExchangeId, b: ExchangeId, name: Seq<char>)
    ensures
        accepts_name(a, a.name()),
        accepts_name(a, name) && accepts_name(b, name) ==> a == b,
{
    lemma_exchange_name_injective(a, b);
    if accepts_name(a, name) && accepts_name(b, name) && a != b {
        reveal_strlit("Coinbase");
        reveal_strlit("binance_futures_usd");
        reveal_strlit("binance_spot");
        reveal_strlit("bitfinex");
        reveal_strlit("coinbase");
        reveal_strlit("coinbase_pro");
        reveal_strlit("deribit");
        reveal_strlit("ftx");
        reveal_strlit("gateio_spot");
        reveal_strlit("gateio_futures_usd");
        reveal_strlit("gateio_futures_btc");
        reveal_strlit("kraken");
        reveal_strlit("kraken_futures_usd");
        reveal_strlit("kucoin");
        reveal_strlit("okx");
        reveal_strlit("poloniex");
        assert(name[0] == 'C');
        if a == ExchangeId::Coinbase {
            assert(b.name()[0] != 'C');
        } else {
            assert(a.name()[0] != 'C');
        }
    }
}

} // verus!
