//! [`Kucoin`] exchange: subscription topics, subscription requests, subscription
//! identifiers, responses and the fields of its trade messages.
//!
//! The timestamp of a trade has 6 trailing zeros: it is divided by 1_000_000 to yield
//! the UNIX ms timestamp.

use crate::error::SocketError;
use crate::exchange::subscription_ids::{lemma_ids_map_finds, lemma_ids_map_step, ids_map, lookup, SubscriptionIds, SubscriptionMeta};
use crate::exchange::ExchangeId;
use crate::model::{Instrument, Side, SnapshotDepth, SubKind, Subscription, SubscriptionId};
use crate::text::{decimal, parse_u64, parsed_u64, spec_uppercase, str_eq, to_uppercase, u64_to_decimal};
use crate::Identifier;
use vstd::prelude::*;

verus! {

/// [`Kucoin`] REST base url (the websocket url is handed out by its token endpoint).
pub const BASE_URL_KUCOIN: &'static str = "https://api.kucoin.com";

/// The [`Kucoin`] market name of an instrument: `"{BASE}-{QUOTE}"`, each uppercased.
pub open spec fn kucoin_market_name(instrument: Instrument) -> Seq<char> {
    spec_uppercase(instrument.base@) + "-"@ + spec_uppercase(instrument.quote@)
}

/// The [`Kucoin`] channel prefix of a kind of data, where [`Kucoin`] offers it: trades
/// and level 2 snapshots of depth 5 and 50.
pub open spec fn kucoin_channel(kind: SubKind) -> Option<Seq<char>> {
    match kind {
        SubKind::Trade => Some("/market/match:"@),
        SubKind::L2OrderBookSnapshot(SnapshotDepth::Depth5) => Some("/spotMarket/level2Depth5:"@),
        SubKind::L2OrderBookSnapshot(SnapshotDepth::Depth50) => Some("/spotMarket/level2Depth50:"@),
        _ => None,
    }
}

/// The topic of a supported subscription: its channel prefix followed by its market,
/// eg/ `"/market/match:BTC-USDT"`.
pub open spec fn kucoin_topic(sub: Subscription) -> Seq<char> {
    kucoin_channel(sub.kind).unwrap() + kucoin_market_name(sub.instrument)
}

/// The url of a [`Kucoin`] WebSocket connection to the server `endpoint` with the access
/// `token` it handed out: `"{endpoint}?token={token}&[connectId={connect_id}]"`.
pub open spec fn kucoin_connection_url(endpoint: Seq<char>, token: Seq<char>, connect_id: u16) -> Seq<char> {
    endpoint + "?token="@ + token + "&[connectId="@ + decimal(connect_id as nat) + "]"@
}

/// A [`Kucoin`] subscription request, sent as the JSON object
/// `{"id": id, "type": "subscribe", "topic": topic, "privateChannel": false, "response": true}`.
#[derive(Debug)]
pub struct KucoinSubRequest {
    pub id: u16,
    pub kind: &'static str,
    pub topic: String,
    pub private_channel: bool,
    pub response: bool,
}

impl KucoinSubRequest {
    /// Whether this is a public `"subscribe"` request for `topic` that asks for a response.
    pub open spec fn is_for(&self, topic: Seq<char>) -> bool {
        &&& self.kind@ == "subscribe"@
        &&& self.topic@ == topic
        &&& !self.private_channel
        &&& self.response
    }
}

/// A random `u16`, drawn with `rand::thread_rng()` and `rand::Rng::gen`. Nothing is
/// stated of the value: it is chance.
#[verifier::external_body]
fn random_u16() -> (r: u16) {
    rand::Rng::gen::<u16>(&mut rand::thread_rng())
}

/// [`Kucoin`] exchange: the subscriptions made, by [`SubscriptionId`].
pub struct Kucoin {
    pub ids: SubscriptionIds,
}

impl Kucoin {
    /// [`Kucoin`] trades channel name.
    pub const CHANNEL_TRADES: &'static str = "/market/match:";

    /// [`Kucoin`] level 2 snapshot of the top 5 bids and asks.
    pub const CHANNEL_L2SNAPSHOT_5: &'static str = "/spotMarket/level2Depth5:";

    /// [`Kucoin`] level 2 snapshot of the top 50 bids and asks.
    pub const CHANNEL_L2SNAPSHOT_50: &'static str = "/spotMarket/level2Depth50:";

    /// The [`ExchangeId`] of [`Kucoin`].
    pub const EXCHANGE: ExchangeId = ExchangeId::Kucoin;

    /// The REST base url of [`Kucoin`].
    pub fn base_url() -> (r: &'static str)
        ensures
            r@ == BASE_URL_KUCOIN@,
    {
        BASE_URL_KUCOIN
    }

    /// A [`Kucoin`] that identifies messages by `ids`.
    pub fn new(ids: SubscriptionIds) -> (r: Kucoin)
        ensures
            r.ids == ids,
    {
        Kucoin { ids }
    }

    /// The url of the connection to `endpoint` with `token`, identified by `connect_id`.
    pub fn connection_url_with_id(endpoint: &str, token: &str, connect_id: u16) -> (r: String)
        ensures
            r@ == kucoin_connection_url(endpoint@, token@, connect_id),
    {
        let mut url = String::from_str(endpoint);
        url.append("?token=");
        url.append(token);
        url.append("&[connectId=");
        let id = u64_to_decimal(connect_id as u64);
        url.append(id.as_str());
        url.append("]");
        url
    }

    /// The url of a connection to `endpoint` with `token`, identified by a random id.
    pub fn connection_url(endpoint: &str, token: &str) -> (r: String)
        ensures
            exists|connect_id: u16| r@ == kucoin_connection_url(endpoint@, token@, connect_id),
    {
        let connect_id = random_u16();
        Kucoin::connection_url_with_id(endpoint, token, connect_id)
    }

    /// Determine the [`Kucoin`] topic of a spot Barter [`Subscription`], eg/
    /// `"/market/match:BTC-USDT"`. Trades and level 2 snapshots are supported.
    pub fn build_channel_metadata(sub: &Subscription) -> (r: Result<String, SocketError>)
        requires
            sub.instrument.kind is Spot,
        ensures
            kucoin_channel(sub.kind) is Some ==> (r matches Ok(topic) && topic@ == kucoin_topic(*sub)),
            kucoin_channel(sub.kind) is None ==> (r matches Err(SocketError::Unsupported { entity, item })
                && entity@ == "kucoin"@ && item@ == sub.kind.name()),
    {
        let base = to_uppercase(sub.instrument.base.as_str());
        let quote = to_uppercase(sub.instrument.quote.as_str());
        let channel = match &sub.kind {
            SubKind::Trade => Kucoin::CHANNEL_TRADES,
            SubKind::L2OrderBookSnapshot(SnapshotDepth::Depth5) => Kucoin::CHANNEL_L2SNAPSHOT_5,
            SubKind::L2OrderBookSnapshot(SnapshotDepth::Depth50) => Kucoin::CHANNEL_L2SNAPSHOT_50,
            other => {
                return Err(
                    SocketError::Unsupported { entity: ExchangeId::Kucoin.as_str(), item: other.to_text() },
                );
            },
        };
        let mut topic = String::from_str(channel);
        topic.append(base.as_str());
        topic.append("-");
        topic.append(quote.as_str());
        Ok(topic)
    }

    /// The request with the request id `id` that subscribes to `topic`.
    pub fn subscription_message_with_id(id: u16, topic: &str) -> (r: KucoinSubRequest)
        ensures
            r.is_for(topic@),
            r.id == id,
    {
        KucoinSubRequest {
            id,
            kind: "subscribe",
            topic: String::from_str(topic),
            private_channel: false,
            response: true,
        }
    }

    /// Build a [`Kucoin`] request that subscribes to `topic`, with a random request id.
    pub fn build_subscription_message(topic: &str) -> (r: KucoinSubRequest)
        ensures
            r.is_for(topic@),
    {
        Kucoin::subscription_message_with_id(random_u16(), topic)
    }

    /// Build the [`SubscriptionId`] of a topic: the topic itself, eg/
    /// `"/market/match:BTC-USDT"`.
    pub fn subscription_id(topic: &str) -> (r: SubscriptionId)
        ensures
            r.text() == topic@,
    {
        SubscriptionId::from_str(topic)
    }

    /// Map a batch of spot Barter [`Subscription`]s: one request per subscription,
    /// the topic of each (as [`SubscriptionId`]) mapped to its subscription, and one
    /// response expected per request. Fails with the error of the first subscription of a
    /// kind [`Kucoin`] does not offer.
    pub fn build_subscription_meta(subscriptions: &Vec<Subscription>) -> (r: Result<
        SubscriptionMeta<KucoinSubRequest>,
        SocketError,
    >)
        requires
            forall|i: int| 0 <= i < subscriptions@.len() ==> (#[trigger] subscriptions@[i]).instrument.kind is Spot,
        ensures
            r is Ok <==> forall|i: int|
                0 <= i < subscriptions@.len() ==> kucoin_channel(#[trigger] subscriptions@[i].kind) is Some,
            r matches Ok(meta) ==> {
                &&& meta.ids.wf()
                &&& meta.ids@ == ids_map(
                    Seq::new(subscriptions@.len(), |i: int| kucoin_topic(subscriptions@[i])),
                    subscriptions@,
                )
                &&& meta.expected_responses == subscriptions@.len()
                &&& meta.subscriptions@.len() == subscriptions@.len()
                &&& forall|i: int|
                    0 <= i < subscriptions@.len() ==> (#[trigger] meta.subscriptions@[i]).is_for(
                        kucoin_topic(subscriptions@[i]),
                    )
            },
            r matches Err(e) ==> exists|k: int|
                0 <= k < subscriptions@.len() && kucoin_channel(subscriptions@[k].kind) is None
                    && (forall|j: int|
                    0 <= j < k ==> kucoin_channel(#[trigger] subscriptions@[j].kind) is Some) && (e matches SocketError::Unsupported {
                    entity,
                    item,
                } && entity@ == "kucoin"@ && item@ == subscriptions@[k].kind.name()),
    {
        let ghost keys = Seq::new(subscriptions@.len(), |i: int| kucoin_topic(subscriptions@[i]));
        let mut ids = SubscriptionIds::new();
        let mut requests: Vec<KucoinSubRequest> = Vec::new();
        let mut i: usize = 0;
        while i < subscriptions.len()
            invariant
                i <= subscriptions@.len(),
                forall|j: int|
                    0 <= j < subscriptions@.len() ==> (#[trigger] subscriptions@[j]).instrument.kind is Spot,
                keys == Seq::new(subscriptions@.len(), |i: int| kucoin_topic(subscriptions@[i])),
                forall|j: int| 0 <= j < i ==> kucoin_channel(#[trigger] subscriptions@[j].kind) is Some,
                ids.wf(),
                ids@ == ids_map(keys.take(i as int), subscriptions@.take(i as int)),
                requests@.len() == i,
                forall|j: int|
                    0 <= j < i ==> (#[trigger] requests@[j]).is_for(kucoin_topic(subscriptions@[j])),
            decreases subscriptions@.len() - i,
        {
            let sub = &subscriptions[i];
            let topic = match Kucoin::build_channel_metadata(sub) {
                Ok(topic) => topic,
                Err(e) => {
                    return Err(e);
                },
            };
            proof {
                lemma_ids_map_step(keys, subscriptions@, i as int);
            }
            ids.insert(Kucoin::subscription_id(topic.as_str()), sub.duplicate());
            requests.push(Kucoin::build_subscription_message(topic.as_str()));
            i = i + 1;
        }
        proof {
            assert(keys.take(subscriptions@.len() as int) =~= keys);
            assert(subscriptions@.take(subscriptions@.len() as int) =~= subscriptions@);
        }
        let n = requests.len();
        Ok(SubscriptionMeta { ids, expected_responses: n, subscriptions: requests })
    }

    /// The [`Instrument`] of the subscription a message with `subscription_id` belongs to.
    pub fn find_instrument(&self, subscription_id: &SubscriptionId) -> (r: Result<Instrument, SocketError>)
        requires
            self.ids.wf(),
        ensures
            r == lookup(self.ids@, *subscription_id),
    {
        self.ids.find_instrument(subscription_id)
    }
}

/// [`Kucoin`] message received in response to a WebSocket subscription request.
#[derive(Clone, Copy, Debug, PartialEq, Eq, Structural)]
pub enum KucoinSubResponse {
    /// Success response (`"type": "ack"`).
    Subscribed,
    /// Error response (`"type": "error"`).
    Error,
}

/// The message of the error a failed [`Kucoin`] subscription is answered with.
pub open spec fn kucoin_failure_text() -> Seq<char> {
    "Received failure subscription response from Kucoin"@
}

impl KucoinSubResponse {
    /// Accept a `Subscribed` response; reject an `Error` response.
    pub fn validate(self) -> (r: Result<KucoinSubResponse, SocketError>)
        ensures
            self is Subscribed ==> r == Ok::<KucoinSubResponse, SocketError>(self),
            self is Error ==> (r matches Err(SocketError::Subscribe(m)) && m@ == kucoin_failure_text()),
    {
        match self {
            KucoinSubResponse::Subscribed => Ok(self),
            KucoinSubResponse::Error => Err(
                SocketError::Subscribe(String::from_str("Received failure subscription response from Kucoin")),
            ),
        }
    }
}

/// [`Kucoin`] message received over the WebSocket relating to an active subscription,
/// associated with it by its topic as [`SubscriptionId`].
#[derive(Debug)]
pub enum KucoinMessage<T> {
    /// A real-time trade (subject `"trade.l3match"`).
    Trade { subscription_id: SubscriptionId, trade: T },
}

impl<T> Identifier<SubscriptionId> for KucoinMessage<T> {
    open spec fn identifies(&self, id: SubscriptionId) -> bool {
        match self {
            KucoinMessage::Trade { subscription_id, .. } => id == *subscription_id,
        }
    }

    fn id(&self) -> (r: SubscriptionId) {
        match self {
            KucoinMessage::Trade { subscription_id, .. } => subscription_id.duplicate(),
        }
    }
}

/// The side of a [`Kucoin`] trade: `"buy"` is a buy, any other text a sell.
pub fn kucoin_side(side: &str) -> (r: Side)
    ensures
        side@ == "buy"@ ==> r == Side::Buy,
        side@ != "buy"@ ==> r == Side::Sell,
{
    if str_eq(side, "buy") {
        Side::Buy
    } else {
        Side::Sell
    }
}

/// The UNIX ms timestamp of a [`Kucoin`] trade time text, which counts nanoseconds:
/// the decimal value divided by 1_000_000, or `None` where the text is not a `u64`.
pub fn kucoin_time_ms(time: &str) -> (r: Option<u64>)
    ensures
        parsed_u64(time@) matches Some(ns) ==> r == Some((ns / 1_000_000) as u64),
        parsed_u64(time@) is None ==> r is None,
{
    match parse_u64(time) {
        Some(ns) => Some(ns / 1_000_000),
        None => None,
    }
}

/// After [`Kucoin::build_subscription_meta`] maps a batch, a message identified by
/// its topic finds the instrument of the subscription it answers (the last of the batch
/// with that id).
pub proof fn lemma_kucoin_topic_found(subs: Seq<Subscription>, i: int, id: SubscriptionId)
    requires
        0 <= i < subs.len(),
        id.text() == kucoin_topic(subs[i]),
        forall|j: int| i < j < subs.len() ==> kucoin_topic(subs[j]) != kucoin_topic(subs[i]),
    ensures
        lookup(ids_map(Seq::new(subs.len(), |j: int| kucoin_topic(subs[j])), subs), id) == Ok::<
            Instrument,
            SocketError,
        >(subs[i].instrument),
{
    let keys = Seq::new(subs.len(), |j: int| kucoin_topic(subs[j]));
    assert forall|j: int| i < j < keys.len() implies keys[j] != keys[i] by {
        assert(keys[j] == kucoin_topic(subs[j]));
    }
    lemma_ids_map_finds(keys, subs, i);
}

} // verus!
