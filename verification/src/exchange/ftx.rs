//! [`Ftx`] exchange: channel & market metadata of subscriptions, subscription requests,
//! subscription identifiers and responses.

use crate::error::{failure_text, subscribe_failure, SocketError};
use crate::exchange::subscription_ids::{lemma_ids_map_finds, lemma_ids_map_step, ids_map, lookup, SubscriptionIds, SubscriptionMeta};
use crate::exchange::ExchangeId;
use crate::model::{Instrument, InstrumentKind, SubKind, Subscription, SubscriptionId};
use crate::text::{join3, join_piped, piped, spec_uppercase, to_uppercase};
use crate::Identifier;
use vstd::prelude::*;

verus! {

/// [`Ftx`] server base url.
pub const BASE_URL_FTX: &'static str = "wss://ftx.com/ws/";

/// Whether [`Ftx`] lists instruments of this kind: spot and perpetual futures.
pub open spec fn ftx_lists(instrument: Instrument) -> bool {
    instrument.kind is Spot || instrument.kind is Perpetual
}

/// The [`Ftx`] market name of an instrument: `"{BASE}/{QUOTE}"` for spot and
/// `"{BASE}-PERP"` for perpetual futures, uppercased.
pub open spec fn ftx_market_name(instrument: Instrument) -> Seq<char> {
    if instrument.kind is Spot {
        spec_uppercase(instrument.base@ + "/"@ + instrument.quote@)
    } else {
        spec_uppercase(instrument.base@ + "-PERP"@)
    }
}

/// The [`SubscriptionId`] text of the trades of `instrument`: `"trades|{market}"`.
pub open spec fn ftx_trades_id(instrument: Instrument) -> Seq<char> {
    piped("trades"@, ftx_market_name(instrument))
}

/// An [`Ftx`] subscription request, sent as the JSON object
/// `{"op": "subscribe", "channel": channel, "market": market}`.
#[derive(Debug)]
pub struct FtxSubRequest {
    pub op: &'static str,
    pub channel: String,
    pub market: String,
}

impl FtxSubRequest {
    /// Whether this is a `"subscribe"` request for `channel` of `market`.
    pub open spec fn is_for(&self, channel: Seq<char>, market: Seq<char>) -> bool {
        &&& self.op@ == "subscribe"@
        &&& self.channel@ == channel
        &&& self.market@ == market
    }
}

/// [`Ftx`] exchange: the subscriptions made, by [`SubscriptionId`].
pub struct Ftx {
    pub ids: SubscriptionIds,
}

impl Ftx {
    /// [`Ftx`] trades channel name.
    pub const CHANNEL_TRADES: &'static str = "trades";

    /// The [`ExchangeId`] of [`Ftx`].
    pub const EXCHANGE: ExchangeId = ExchangeId::Ftx;

    /// The server base url of [`Ftx`].
    pub fn base_url() -> (r: &'static str)
        ensures
            r@ == BASE_URL_FTX@,
    {
        BASE_URL_FTX
    }

    /// An [`Ftx`] that identifies messages by `ids`.
    pub fn new(ids: SubscriptionIds) -> (r: Ftx)
        ensures
            r.ids == ids,
    {
        Ftx { ids }
    }

    /// Determine the [`Ftx`] channel & market of a Barter [`Subscription`], eg/
    /// `("trades", "BTC/USDT")`: only public trades are supported.
    pub fn build_channel_meta(sub: &Subscription) -> (r: Result<(&'static str, String), SocketError>)
        requires
            ftx_lists(sub.instrument),
        ensures
            sub.kind == SubKind::Trade ==> (r matches Ok((channel, market)) && channel@ == "trades"@
                && market@ == ftx_market_name(sub.instrument)),
            sub.kind != SubKind::Trade ==> (r matches Err(SocketError::Unsupported { entity, item })
                && entity@ == "ftx"@ && item@ == sub.kind.name()),
    {
        let channel = match &sub.kind {
            SubKind::Trade => Ftx::CHANNEL_TRADES,
            other => {
                return Err(
                    SocketError::Unsupported { entity: ExchangeId::Ftx.as_str(), item: other.to_text() },
                );
            },
        };
        let base = sub.instrument.base.as_str();
        let market = match &sub.instrument.kind {
            InstrumentKind::Spot => join3(base, "/", sub.instrument.quote.as_str()),
            _ => {
                let s = String::from_str(base);
                s.concat("-PERP")
            },
        };
        Ok((channel, to_uppercase(market.as_str())))
    }

    /// Build an [`Ftx`] subscription request for `channel` of `market`.
    pub fn subscription(channel: &str, market: &str) -> (r: FtxSubRequest)
        ensures
            r.is_for(channel@, market@),
    {
        FtxSubRequest { op: "subscribe", channel: String::from_str(channel), market: String::from_str(market) }
    }

    /// Build the [`SubscriptionId`] of `channel` of `market`: `"{channel}|{market}"`, eg/
    /// "trades|BTC/USDT".
    pub fn subscription_id(channel: &str, market: &str) -> (r: SubscriptionId)
        ensures
            r.text() == piped(channel@, market@),
    {
        SubscriptionId(join_piped(channel, market))
    }

    /// The [`SubscriptionId`] of trades of `market` (eg/ "BTC/USD"): "trades|BTC/USD".
    pub fn trade_subscription_id(market: &str) -> (r: SubscriptionId)
        ensures
            r.text() == piped("trades"@, market@),
    {
        Ftx::subscription_id(Ftx::CHANNEL_TRADES, market)
    }

    /// Map a batch of Barter [`Subscription`]s: one request per subscription, the
    /// [`SubscriptionId`] of each mapped to its subscription, and one response expected
    /// per request. Fails with the error of the first subscription that is not for
    /// public trades.
    pub fn build_subscription_meta(subscriptions: &Vec<Subscription>) -> (r: Result<
        SubscriptionMeta<FtxSubRequest>,
        SocketError,
    >)
        requires
            forall|i: int| 0 <= i < subscriptions@.len() ==> ftx_lists(#[trigger] subscriptions@[i].instrument),
        ensures
            r is Ok <==> forall|i: int|
                0 <= i < subscriptions@.len() ==> #[trigger] subscriptions@[i].kind == SubKind::Trade,
            r matches Ok(meta) ==> {
                &&& meta.ids.wf()
                &&& meta.ids@ == ids_map(
                    Seq::new(subscriptions@.len(), |i: int| ftx_trades_id(subscriptions@[i].instrument)),
                    subscriptions@,
                )
                &&& meta.expected_responses == subscriptions@.len()
                &&& meta.subscriptions@.len() == subscriptions@.len()
                &&& forall|i: int|
                    0 <= i < subscriptions@.len() ==> (#[trigger] meta.subscriptions@[i]).is_for(
                        "trades"@,
                        ftx_market_name(subscriptions@[i].instrument),
                    )
            },
            r matches Err(e) ==> exists|k: int|
                0 <= k < subscriptions@.len() && subscriptions@[k].kind != SubKind::Trade
                    && (forall|j: int| 0 <= j < k ==> #[trigger] subscriptions@[j].kind == SubKind::Trade)
                    && (e matches SocketError::Unsupported { entity, item } && entity@ == "ftx"@
                    && item@ == subscriptions@[k].kind.name()),
    {
        let ghost keys = Seq::new(
            subscriptions@.len(),
            |i: int| ftx_trades_id(subscriptions@[i].instrument),
        );
        let mut ids = SubscriptionIds::new();
        let mut requests: Vec<FtxSubRequest> = Vec::new();
        let mut i: usize = 0;
        while i < subscriptions.len()
            invariant
                i <= subscriptions@.len(),
                forall|j: int| 0 <= j < subscriptions@.len() ==> ftx_lists(#[trigger] subscriptions@[j].instrument),
                keys == Seq::new(
                    subscriptions@.len(),
                    |i: int| ftx_trades_id(subscriptions@[i].instrument),
                ),
                forall|j: int| 0 <= j < i ==> #[trigger] subscriptions@[j].kind == SubKind::Trade,
                ids.wf(),
                ids@ == ids_map(keys.take(i as int), subscriptions@.take(i as int)),
                requests@.len() == i,
                forall|j: int|
                    0 <= j < i ==> (#[trigger] requests@[j]).is_for(
                        "trades"@,
                        ftx_market_name(subscriptions@[j].instrument),
                    ),
            decreases subscriptions@.len() - i,
        {
            let sub = &subscriptions[i];
            let (channel, market) = match Ftx::build_channel_meta(sub) {
                Ok(meta) => meta,
                Err(e) => {
                    return Err(e);
                },
            };
            let id = Ftx::subscription_id(channel, market.as_str());
            proof {
                lemma_ids_map_step(keys, subscriptions@, i as int);
            }
            ids.insert(id, sub.duplicate());
            requests.push(Ftx::subscription(channel, market.as_str()));
            i = i + 1;
        }
        proof {
            assert(keys.take(subscriptions@.len() as int) =~= keys);
            assert(subscriptions@.take(subscriptions@.len() as int) =~= subscriptions@);
        }
        let n = requests.len();
        Ok(SubscriptionMeta { ids, expected_responses: n, subscriptions: requests })
    }

    /// The [`Instrument`] of the subscription a message with `subscription_id` belongs to.
    pub fn find_instrument(&self, subscription_id: &SubscriptionId) -> (r: Result<Instrument, SocketError>)
        requires
            self.ids.wf(),
        ensures
            r == lookup(self.ids@, *subscription_id),
    {
        self.ids.find_instrument(subscription_id)
    }
}

/// [`Ftx`] message received over the WebSocket: a batch of trades of one market,
/// identified by the [`SubscriptionId`] of its market.
#[derive(Clone, Debug)]
pub enum FtxMessage<T> {
    Trades { subscription_id: SubscriptionId, trades: Vec<T> },
}

impl<T> Identifier<SubscriptionId> for FtxMessage<T> {
    open spec fn identifies(&self, id: SubscriptionId) -> bool {
        match self {
            FtxMessage::Trades { subscription_id, .. } => id == *subscription_id,
        }
    }

    fn id(&self) -> (r: SubscriptionId) {
        match self {
            FtxMessage::Trades { subscription_id, .. } => subscription_id.duplicate(),
        }
    }
}

/// [`Ftx`] message received in response to WebSocket subscription requests.
#[derive(Clone, Debug)]
pub enum FtxSubResponse {
    Subscribed { channel: String, market: String },
    Error { msg: String },
}

impl FtxSubResponse {
    /// Accept a `Subscribed` response; reject an `Error` response with its message.
    pub fn validate(self) -> (r: Result<FtxSubResponse, SocketError>)
        ensures
            self is Subscribed ==> r == Ok::<FtxSubResponse, SocketError>(self),
            self matches FtxSubResponse::Error { msg } ==> (r matches Err(SocketError::Subscribe(m))
                && m@ == failure_text(msg@)),
    {
        match &self {
            FtxSubResponse::Subscribed { .. } => Ok(self),
            FtxSubResponse::Error { msg } => Err(subscribe_failure(msg.as_str())),
        }
    }
}

/// After [`Ftx::build_subscription_meta`] maps a batch, a message identified by
/// the id of its market's trades finds the instrument of the subscription it answers (the last of the batch
/// with that id).
pub proof fn lemma_ftx_trades_found(subs: Seq<Subscription>, i: int, id: SubscriptionId)
    requires
        0 <= i < subs.len(),
        id.text() == ftx_trades_id(subs[i].instrument),
        forall|j: int| i < j < subs.len() ==> ftx_trades_id(subs[j].instrument) != ftx_trades_id(subs[i].instrument),
    ensures
        lookup(ids_map(Seq::new(subs.len(), |j: int| ftx_trades_id(subs[j].instrument)), subs), id) == Ok::<
            Instrument,
            SocketError,
        >(subs[i].instrument),
{
    let keys = Seq::new(subs.len(), |j: int| ftx_trades_id(subs[j].instrument));
    assert forall|j: int| i < j < keys.len() implies keys[j] != keys[i] by {
        assert(keys[j] == ftx_trades_id(subs[j].instrument));
    }
    lemma_ids_map_finds(keys, subs, i);
}

} // verus!
