//! [`KrakenFuturesUsd`] exchange: subscription messages, subscription identifiers,
//! responses and the time of its trades.

use crate::error::{failure_text, subscribe_failure, SocketError};
use crate::exchange::subscription_ids::{lemma_ids_map_finds, lemma_ids_map_step, ids_map, lookup, SubscriptionIds, SubscriptionMeta};
use crate::exchange::ExchangeId;
use crate::model::{Instrument, SubKind, Subscription, SubscriptionId};
use crate::text::{spec_uppercase, to_uppercase};
use vstd::prelude::*;

verus! {

/// [`KrakenFuturesUsd`] server base url.
pub const BASE_URL_KRAKEN_FUTURES_USD: &'static str = "wss://futures.kraken.com/ws/v1";

/// The [`KrakenFuturesUsd`] product id of an instrument: `"PI_{base}{quote}"` uppercased,
/// eg/ `"PI_XBTUSD"`.
pub open spec fn kraken_futures_pair(instrument: Instrument) -> Seq<char> {
    spec_uppercase("PI_"@ + instrument.base@ + instrument.quote@)
}

/// Kind of a [`KrakenFuturesUsdSubscription`]: its feed name.
#[derive(Clone, Copy, Debug)]
pub enum KrakenFuturesUsdSubKind {
    Trade(&'static str),
}

impl KrakenFuturesUsdSubKind {
    /// Feed name of trades.
    pub const TRADE: &'static str = "trade";

    /// Map a Barter [`SubKind`]: only trades are supported.
    pub fn try_from(kind: &SubKind) -> (r: Result<KrakenFuturesUsdSubKind, SocketError>)
        ensures
            *kind == SubKind::Trade ==> (r matches Ok(KrakenFuturesUsdSubKind::Trade(feed)) && feed@
                == "trade"@),
            *kind != SubKind::Trade ==> (r matches Err(SocketError::Unsupported { entity, item })
                && entity@ == "kraken_futures_usd"@ && item@ == kind.name()),
    {
        match kind {
            SubKind::Trade => Ok(KrakenFuturesUsdSubKind::Trade(KrakenFuturesUsdSubKind::TRADE)),
            other => Err(
                SocketError::Unsupported {
                    entity: ExchangeId::KrakenFuturesUsd.as_str(),
                    item: other.to_text(),
                },
            ),
        }
    }
}

/// A [`KrakenFuturesUsd`] subscription message built from a Barter
/// [`Subscription`], sent as `{"event": "subscribe", "feed": "trade", "product_ids": ["PI_XBTUSD"]}`.
#[derive(Debug)]
pub struct KrakenFuturesUsdSubscription {
    pub event: &'static str,
    pub kind: KrakenFuturesUsdSubKind,
    pub pair: String,
}

impl KrakenFuturesUsdSubscription {
    /// Whether this is a `"subscribe"` message for the trades of `pair`.
    pub open spec fn is_trades_of(&self, pair: Seq<char>) -> bool {
        &&& self.event@ == "subscribe"@
        &&& self.pair@ == pair
        &&& match self.kind {
            KrakenFuturesUsdSubKind::Trade(feed) => feed@ == "trade"@,
        }
    }

    /// Event name of a subscription request.
    pub const EVENT: &'static str = "subscribe";

    /// Construct a `"subscribe"` message for `pair` (eg/ "PI_XBTUSD") and `kind`.
    pub fn new(pair: String, kind: KrakenFuturesUsdSubKind) -> (r: KrakenFuturesUsdSubscription)
        ensures
            r.event@ == "subscribe"@,
            r.pair == pair,
            r.kind == kind,
    {
        KrakenFuturesUsdSubscription { event: KrakenFuturesUsdSubscription::EVENT, kind, pair }
    }

    /// The [`SubscriptionId`] of this subscription: the pair, eg/ "PI_XBTUSD".
    pub fn subscription_id(&self) -> (r: SubscriptionId)
        ensures
            r.text() == self.pair@,
    {
        match self.kind {
            KrakenFuturesUsdSubKind::Trade(_) => SubscriptionId::from_str(self.pair.as_str()),
        }
    }
}

/// [`KrakenFuturesUsd`] exchange: the subscriptions made, by [`SubscriptionId`].
pub struct KrakenFuturesUsd {
    pub ids: SubscriptionIds,
}

impl KrakenFuturesUsd {
    /// The [`ExchangeId`] of [`KrakenFuturesUsd`].
    pub const EXCHANGE: ExchangeId = ExchangeId::KrakenFuturesUsd;

    /// The server base url of [`KrakenFuturesUsd`].
    pub fn base_url() -> (r: &'static str)
        ensures
            r@ == BASE_URL_KRAKEN_FUTURES_USD@,
    {
        BASE_URL_KRAKEN_FUTURES_USD
    }

    /// A [`KrakenFuturesUsd`] that identifies messages by `ids`.
    pub fn new(ids: SubscriptionIds) -> (r: KrakenFuturesUsd)
        ensures
            r.ids == ids,
    {
        KrakenFuturesUsd { ids }
    }

    /// Map a Barter [`Subscription`] into a [`KrakenFuturesUsd`] subscription
    /// message: the pair of its instrument and its kind, of which only trades are
    /// supported.
    pub fn subscription(sub: &Subscription) -> (r: Result<KrakenFuturesUsdSubscription, SocketError>)
        ensures
            sub.kind == SubKind::Trade ==> (r matches Ok(s) && s.is_trades_of(
                kraken_futures_pair(sub.instrument),
            )),
            sub.kind != SubKind::Trade ==> (r matches Err(SocketError::Unsupported { entity, item })
                && entity@ == "kraken_futures_usd"@ && item@ == sub.kind.name()),
    {
        let mut text = String::from_str("PI_");
        text.append(sub.instrument.base.as_str());
        text.append(sub.instrument.quote.as_str());
        let pair = to_uppercase(text.as_str());
        let kind = match KrakenFuturesUsdSubKind::try_from(&sub.kind) {
            Ok(kind) => kind,
            Err(e) => {
                return Err(e);
            },
        };
        Ok(KrakenFuturesUsdSubscription::new(pair, kind))
    }

    /// Map a batch of Barter [`Subscription`]s: one message per subscription, the
    /// pair of each (as [`SubscriptionId`]) mapped to its subscription, and one response
    /// expected per message. Fails with the error of the first subscription that is not
    /// for trades.
    pub fn build_subscription_meta(subscriptions: &Vec<Subscription>) -> (r: Result<
        SubscriptionMeta<KrakenFuturesUsdSubscription>,
        SocketError,
    >)
        ensures
            r is Ok <==> forall|i: int|
                0 <= i < subscriptions@.len() ==> #[trigger] subscriptions@[i].kind == SubKind::Trade,
            r matches Ok(meta) ==> {
                &&& meta.ids.wf()
                &&& meta.ids@ == ids_map(
                    Seq::new(
                        subscriptions@.len(),
                        |i: int| kraken_futures_pair(subscriptions@[i].instrument),
                    ),
                    subscriptions@,
                )
                &&& meta.expected_responses == subscriptions@.len()
                &&& meta.subscriptions@.len() == subscriptions@.len()
                &&& forall|i: int|
                    0 <= i < subscriptions@.len() ==> (#[trigger] meta.subscriptions@[i]).is_trades_of(
                        kraken_futures_pair(subscriptions@[i].instrument),
                    )
            },
            r matches Err(e) ==> exists|k: int|
                0 <= k < subscriptions@.len() && subscriptions@[k].kind != SubKind::Trade
                    && (forall|j: int| 0 <= j < k ==> #[trigger] subscriptions@[j].kind == SubKind::Trade)
                    && (e matches SocketError::Unsupported { entity, item } && entity@
                    == "kraken_futures_usd"@ && item@ == subscriptions@[k].kind.name()),
    {
        let ghost keys = Seq::new(
            subscriptions@.len(),
            |i: int| kraken_futures_pair(subscriptions@[i].instrument),
        );
        let mut ids = SubscriptionIds::new();
        let mut messages: Vec<KrakenFuturesUsdSubscription> = Vec::new();
        let mut i: usize = 0;
        while i < subscriptions.len()
            invariant
                i <= subscriptions@.len(),
                keys == Seq::new(
                    subscriptions@.len(),
                    |i: int| kraken_futures_pair(subscriptions@[i].instrument),
                ),
                forall|j: int| 0 <= j < i ==> #[trigger] subscriptions@[j].kind == SubKind::Trade,
                ids.wf(),
                ids@ == ids_map(keys.take(i as int), subscriptions@.take(i as int)),
                messages@.len() == i,
                forall|j: int|
                    0 <= j < i ==> (#[trigger] messages@[j]).is_trades_of(
                        kraken_futures_pair(subscriptions@[j].instrument),
                    ),
            decreases subscriptions@.len() - i,
        {
            let sub = &subscriptions[i];
            let message = match KrakenFuturesUsd::subscription(sub) {
                Ok(message) => message,
                Err(e) => {
                    return Err(e);
                },
            };
            proof {
                lemma_ids_map_step(keys, subscriptions@, i as int);
            }
            ids.insert(message.subscription_id(), sub.duplicate());
            messages.push(message);
            i = i + 1;
        }
        proof {
            assert(keys.take(subscriptions@.len() as int) =~= keys);
            assert(subscriptions@.take(subscriptions@.len() as int) =~= subscriptions@);
        }
        let n = messages.len();
        Ok(SubscriptionMeta { ids, expected_responses: n, subscriptions: messages })
    }

    /// The [`Instrument`] of the subscription a trade of `product_id` belongs to.
    pub fn find_instrument(&self, product_id: &SubscriptionId) -> (r: Result<Instrument, SocketError>)
        requires
            self.ids.wf(),
        ensures
            r == lookup(self.ids@, *product_id),
    {
        self.ids.find_instrument(product_id)
    }
}

/// [`KrakenFuturesUsd`] message received over the WebSocket: a snapshot of the latest
/// trades of a product, sent once after connecting, or one new trade.
#[derive(Clone, Debug)]
pub enum KrakenFuturesUsdMessage<T> {
    TradeSnapshot { product_id: SubscriptionId, trades: Vec<T> },
    Trade(T),
}

/// [`KrakenFuturesUsd`] message received in response to WebSocket subscription requests.
#[derive(Clone, Debug)]
pub enum KrakenFuturesUsdSubResponse {
    Subscribed { feed: String, product_ids: Vec<String> },
    Error { message: String },
}

impl KrakenFuturesUsdSubResponse {
    /// Accept a `Subscribed` response; reject an `Error` response with its message.
    pub fn validate(self) -> (r: Result<KrakenFuturesUsdSubResponse, SocketError>)
        ensures
            self is Subscribed ==> r == Ok::<KrakenFuturesUsdSubResponse, SocketError>(self),
            self matches KrakenFuturesUsdSubResponse::Error { message } ==> (r matches Err(
                SocketError::Subscribe(m),
            ) && m@ == failure_text(message@)),
    {
        match &self {
            KrakenFuturesUsdSubResponse::Subscribed { .. } => Ok(self),
            KrakenFuturesUsdSubResponse::Error { message } => Err(subscribe_failure(message.as_str())),
        }
    }
}

/// After [`KrakenFuturesUsd::build_subscription_meta`] maps a batch, a message identified by
/// its product id finds the instrument of the subscription it answers (the last of the batch
/// with that id).
pub proof fn lemma_kraken_futures_product_found(subs: Seq<Subscription>, i: int, id: SubscriptionId)
    requires
        0 <= i < subs.len(),
        id.text() == kraken_futures_pair(subs[i].instrument),
        forall|j: int| i < j < subs.len() ==> kraken_futures_pair(subs[j].instrument) != kraken_futures_pair(subs[i].instrument),
    ensures
        lookup(ids_map(Seq::new(subs.len(), |j: int| kraken_futures_pair(subs[j].instrument)), subs), id) == Ok::<
            Instrument,
            SocketError,
        >(subs[i].instrument),
{
    let keys = Seq::new(subs.len(), |j: int| kraken_futures_pair(subs[j].instrument));
    assert forall|j: int| i < j < keys.len() implies keys[j] != keys[i] by {
        assert(keys[j] == kraken_futures_pair(subs[j].instrument));
    }
    lemma_ids_map_finds(keys, subs, i);
}

} // verus!
