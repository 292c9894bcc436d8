//! [`Kraken`] exchange: channel & market names, subscription requests and kinds,
//! candle intervals, subscription responses and message identifiers.

use crate::endpoint::{parse_url, spec_url_parses};
use crate::error::{failure_text, subscribe_failure, SocketError};
use crate::exchange::{accepts_name, ExchangeId, ExchangeSub, Named};
use crate::model::{Instrument, Interval, SubKind, Subscription, SubscriptionId};
use crate::text::{
    decimal, join3, join_piped, lemma_decimal_digits, lemma_decimal_injective, lemma_piped_injective,
    lemma_split_at_first, piped, spec_uppercase, str_eq, to_uppercase, u64_to_decimal, all_ascii,
    ascii_upper_text, lemma_ascii_concat, lemma_ascii_upper_keeps, uppercase,
};
use crate::Identifier;
use vstd::prelude::*;
use vstd::std_specs::convert::FromSpecImpl;

verus! {

/// [`Kraken`] server base url.
pub const BASE_URL_KRAKEN: &'static str = "wss://ws.kraken.com/";

/// A [`Kraken`] channel to be subscribed to, eg/ `KrakenChannel("trade")`.
#[derive(Clone, Copy, Debug)]
pub struct KrakenChannel(pub &'static str);

impl KrakenChannel {
    /// [`Kraken`] real-time trades channel name: `"trade"`.
    pub fn trades() -> (r: KrakenChannel)
        ensures
            r.0@ == "trade"@,
    {
        KrakenChannel("trade")
    }

    /// The channel that serves subscriptions of `kind`: only public trades are
    /// supported.
    pub fn for_kind(kind: &SubKind) -> (r: Result<KrakenChannel, SocketError>)
        ensures
            *kind == SubKind::Trade ==> (r matches Ok(c) && c.0@ == "trade"@),
            *kind != SubKind::Trade ==> (r matches Err(SocketError::Unsupported { entity, item })
                && entity@ == "kraken"@ && item@ == kind.name()),
    {
        match kind {
            SubKind::Trade => Ok(KrakenChannel::trades()),
            _ => Err(
                SocketError::Unsupported { entity: ExchangeId::Kraken.as_str(), item: kind.to_text() },
            ),
        }
    }
}

impl Named for KrakenChannel {
    open spec fn name(&self) -> Seq<char> {
        self.0@
    }

    fn as_str(&self) -> (r: &str) {
        self.0
    }
}

/// The [`Kraken`] market name of an instrument: `"{BASE}/{QUOTE}"` uppercased.
pub open spec fn kraken_market_name(instrument: Instrument) -> Seq<char> {
    spec_uppercase(instrument.base@ + "/"@ + instrument.quote@)
}

/// The [`Kraken`] market name of an instrument as `str::to_uppercase` renders it:
/// `"{base}/{quote}"` uppercased.
pub open spec fn kraken_market_text(instrument: Instrument) -> Seq<char> {
    uppercase(instrument.base@ + "/"@ + instrument.quote@)
}

/// For ASCII symbols the [`Kraken`] market is the base, a `'/'`, then the quote, each
/// with its lowercase letters uppercased (eg/ "xbt", "usd" give "XBT/USD").
pub proof fn lemma_kraken_market_ascii(instrument: Instrument)
    requires
        all_ascii(instrument.base@),
        all_ascii(instrument.quote@),
    ensures
        kraken_market_text(instrument) == ascii_upper_text(instrument.base@) + seq!['/']
            + ascii_upper_text(instrument.quote@),
{
    reveal_strlit("/");
    assert("/"@ =~= seq!['/']);
    let b = instrument.base@;
    let q = instrument.quote@;
    lemma_ascii_concat(b, seq!['/']);
    lemma_ascii_concat(b + seq!['/'], q);
    assert(ascii_upper_text(seq!['/']) =~= seq!['/']);
}

/// Distinct pairs get distinct [`Kraken`] markets: where the ASCII symbols hold no
/// `'/'`, equal markets have equal uppercased bases and equal uppercased quotes.
pub proof fn lemma_kraken_markets_distinct(a: Instrument, b: Instrument)
    requires
        all_ascii(a.base@),
        all_ascii(a.quote@),
        all_ascii(b.base@),
        all_ascii(b.quote@),
        !a.base@.contains('/'),
        !b.base@.contains('/'),
        kraken_market_text(a) == kraken_market_text(b),
    ensures
        ascii_upper_text(a.base@) == ascii_upper_text(b.base@),
        ascii_upper_text(a.quote@) == ascii_upper_text(b.quote@),
{
    lemma_kraken_market_ascii(a);
    lemma_kraken_market_ascii(b);
    lemma_ascii_upper_keeps(a.base@, '/');
    lemma_ascii_upper_keeps(b.base@, '/');
    lemma_split_at_first(
        ascii_upper_text(a.base@),
        ascii_upper_text(a.quote@),
        ascii_upper_text(b.base@),
        ascii_upper_text(b.quote@),
        '/',
    );
}

/// A [`Kraken`] market to be subscribed to, eg/ `KrakenMarket("XBT/USD")`.
#[derive(Clone, Debug)]
pub struct KrakenMarket(pub String);

impl KrakenMarket {
    /// The market of `instrument`: `"{base}/{quote}"` uppercased.
    pub fn for_instrument(instrument: &Instrument) -> (r: KrakenMarket)
        ensures
            r.0@ == kraken_market_name(*instrument),
            r.0@ == kraken_market_text(*instrument),
    {
        let joined = join3(instrument.base.as_str(), "/", instrument.quote.as_str());
        KrakenMarket(to_uppercase(joined.as_str()))
    }
}

impl Named for KrakenMarket {
    open spec fn name(&self) -> Seq<char> {
        self.0@
    }

    fn as_str(&self) -> (r: &str) {
        self.0.as_str()
    }
}

impl Identifier<KrakenMarket> for Subscription {
    open spec fn identifies(&self, id: KrakenMarket) -> bool {
        id.0@ == kraken_market_name(self.instrument)
    }

    fn id(&self) -> (r: KrakenMarket) {
        let m = KrakenMarket::for_instrument(&self.instrument);
        m
    }
}

/// Generate a [`Kraken`] [`SubscriptionId`] from the channel and market provided:
/// `"{channel}|{market}"`, eg/ `SubscriptionId("trade|XBT/USD")`.
pub fn subscription_id(channel: KrakenChannel, market: &str) -> (r: SubscriptionId)
    ensures
        r.text() == piped(channel.0@, market@),
{
    SubscriptionId(join_piped(channel.0, market))
}

/// A [`Kraken`] subscription request, sent as the JSON object
/// `{"event": "subscribe", "pair": [market], "subscription": {"name": channel}}`.
#[derive(Debug)]
pub struct KrakenSubRequest {
    pub event: &'static str,
    pub pair: Vec<String>,
    pub name: String,
}

impl KrakenSubRequest {
    /// Whether this is a `"subscribe"` request for exactly `channel` of `market`.
    pub open spec fn is_for(&self, channel: Seq<char>, market: Seq<char>) -> bool {
        &&& self.event@ == "subscribe"@
        &&& self.pair@.len() == 1
        &&& self.pair@[0]@ == market
        &&& self.name@ == channel
    }

    /// A request subscribing to `channel` of `market`.
    pub fn new(channel: &str, market: &str) -> (r: KrakenSubRequest)
        ensures
            r.is_for(channel@, market@),
    {
        let mut pair = Vec::new();
        pair.push(String::from_str(market));
        KrakenSubRequest { event: "subscribe", pair, name: String::from_str(channel) }
    }
}

/// Channel & market metadata of one [`Kraken`] subscription.
#[derive(Clone, Debug)]
pub struct KrakenSubMeta {
    pub channel: KrakenChannel,
    pub market: String,
}

impl KrakenSubMeta {
    /// Map a Barter [`Subscription`] into [`Kraken`] channel & market metadata.
    pub fn new(sub: &Subscription) -> (r: Result<KrakenSubMeta, SocketError>)
        ensures
            sub.kind == SubKind::Trade ==> (r matches Ok(m) && m.channel.0@ == "trade"@
                && m.market@ == kraken_market_name(sub.instrument) && m.market@ == kraken_market_text(
                sub.instrument,
            )),
            sub.kind != SubKind::Trade ==> (r matches Err(SocketError::Unsupported { entity, item })
                && entity@ == "kraken"@ && item@ == sub.kind.name()),
    {
        let channel = KrakenChannel::for_kind(&sub.kind)?;
        let market = KrakenMarket::for_instrument(&sub.instrument);
        Ok(KrakenSubMeta { channel, market: market.0 })
    }

    /// The [`SubscriptionId`] of this subscription: `"{channel}|{market}"`.
    pub fn id(&self) -> (r: SubscriptionId)
        ensures
            r.text() == piped(self.channel.0@, self.market@),
    {
        subscription_id(self.channel, self.market.as_str())
    }

    /// One subscription request per subscription, in order.
    pub fn requests(subscriptions: Vec<KrakenSubMeta>) -> (r: Vec<KrakenSubRequest>)
        ensures
            r@.len() == subscriptions@.len(),
            forall|i: int|
                0 <= i < r@.len() ==> (#[trigger] r@[i]).is_for(
                    subscriptions@[i].channel.0@,
                    subscriptions@[i].market@,
                ),
    {
        let mut out: Vec<KrakenSubRequest> = Vec::new();
        let mut i: usize = 0;
        while i < subscriptions.len()
            invariant
                i <= subscriptions@.len(),
                out@.len() == i,
                forall|j: int|
                    0 <= j < i ==> (#[trigger] out@[j]).is_for(
                        subscriptions@[j].channel.0@,
                        subscriptions@[j].market@,
                    ),
            decreases subscriptions@.len() - i,
        {
            let meta = &subscriptions[i];
            out.push(KrakenSubRequest::new(meta.channel.0, meta.market.as_str()));
            i = i + 1;
        }
        out
    }
}

/// Kraken candle interval.
#[derive(Clone, Copy, Debug, PartialEq, Eq, Structural)]
pub enum KrakenInterval {
    Minute1,
    Minute5,
    Minute15,
    Minute30,
    Hour1,
    Hour4,
    Hour12,
    Day1,
    Week1,
}

/// The [`KrakenInterval`] of a Barter [`Interval`], where [`Kraken`] supports it.
pub open spec fn kraken_interval(interval: Interval) -> Option<KrakenInterval> {
    match interval {
        Interval::Minute1 => Some(KrakenInterval::Minute1),
        Interval::Minute5 => Some(KrakenInterval::Minute5),
        Interval::Minute15 => Some(KrakenInterval::Minute15),
        Interval::Minute30 => Some(KrakenInterval::Minute30),
        Interval::Hour1 => Some(KrakenInterval::Hour1),
        Interval::Hour4 => Some(KrakenInterval::Hour4),
        Interval::Hour12 => Some(KrakenInterval::Hour12),
        Interval::Day1 => Some(KrakenInterval::Day1),
        Interval::Week1 => Some(KrakenInterval::Week1),
        _ => None,
    }
}

/// The number a [`KrakenInterval`] is sent as.
pub open spec fn kraken_interval_number(interval: KrakenInterval) -> u32 {
    match interval {
        KrakenInterval::Minute1 => 1,
        KrakenInterval::Minute5 => 5,
        KrakenInterval::Minute15 => 15,
        KrakenInterval::Minute30 => 30,
        KrakenInterval::Hour1 => 60,
        KrakenInterval::Hour4 => 240,
        KrakenInterval::Hour12 => 1440,
        KrakenInterval::Day1 => 10080,
        KrakenInterval::Week1 => 21600,
    }
}

/// [`Kraken`] candle intervals keep the order of the Barter intervals they stand for:
/// of two supported intervals the longer maps to the larger interval number, so distinct
/// intervals never share one. Every supported interval has a fixed length, and up to 4
/// hours the number sent is that length in minutes (eg/ `Hour4` is sent as 240).
pub proof fn lemma_kraken_interval_lengths(a: Interval, b: Interval)
    ensures
        kraken_interval(a) is Some ==> a.minutes() is Some,
        (kraken_interval(a) is Some && kraken_interval(b) is Some && a.minutes().unwrap()
            < b.minutes().unwrap()) ==> kraken_interval_number(kraken_interval(a).unwrap())
            < kraken_interval_number(kraken_interval(b).unwrap()),
        (kraken_interval(a) is Some && kraken_interval(b) is Some && a != b) ==> kraken_interval(a)
            != kraken_interval(b),
        (kraken_interval(a) is Some && a.minutes().unwrap() <= 240) ==> kraken_interval_number(
            kraken_interval(a).unwrap(),
        ) == a.minutes().unwrap(),
{
}

impl KrakenInterval {
    /// Map a Barter [`Interval`] into a [`KrakenInterval`]; intervals [`Kraken`]
    /// does not offer are unsupported.
    pub fn try_from(interval: &Interval) -> (r: Result<KrakenInterval, SocketError>)
        ensures
            kraken_interval(*interval) matches Some(k) ==> r == Ok::<KrakenInterval, SocketError>(k),
            kraken_interval(*interval) is None ==> (r matches Err(
                SocketError::Unsupported { entity, item },
            ) && entity@ == "kraken"@ && item@ == interval.name()),
    {
        match interval {
            Interval::Minute1 => Ok(KrakenInterval::Minute1),
            Interval::Minute5 => Ok(KrakenInterval::Minute5),
            Interval::Minute15 => Ok(KrakenInterval::Minute15),
            Interval::Minute30 => Ok(KrakenInterval::Minute30),
            Interval::Hour1 => Ok(KrakenInterval::Hour1),
            Interval::Hour4 => Ok(KrakenInterval::Hour4),
            Interval::Hour12 => Ok(KrakenInterval::Hour12),
            Interval::Day1 => Ok(KrakenInterval::Day1),
            Interval::Week1 => Ok(KrakenInterval::Week1),
            other => Err(
                SocketError::Unsupported {
                    entity: ExchangeId::Kraken.as_str(),
                    item: String::from_str(other.as_str()),
                },
            ),
        }
    }
}

impl From<KrakenInterval> for u32 {
    fn from(interval: KrakenInterval) -> (r: u32) {
        match interval {
            KrakenInterval::Minute1 => 1,
            KrakenInterval::Minute5 => 5,
            KrakenInterval::Minute15 => 15,
            KrakenInterval::Minute30 => 30,
            KrakenInterval::Hour1 => 60,
            KrakenInterval::Hour4 => 240,
            KrakenInterval::Hour12 => 1440,
            KrakenInterval::Day1 => 10080,
            KrakenInterval::Week1 => 21600,
        }
    }
}

impl FromSpecImpl<KrakenInterval> for u32 {
    open spec fn obeys_from_spec() -> bool {
        true
    }

    open spec fn from_spec(v: KrakenInterval) -> u32 {
        kraken_interval_number(v)
    }
}

/// Kind of a [`KrakenSubscription`]: trades, or candles of an interval.
#[derive(Clone, Copy, Debug)]
pub enum KrakenSubKind {
    Trade { channel: &'static str },
    Candle { channel: &'static str, interval: u32 },
}

impl KrakenSubKind {
    /// Channel name of trades.
    pub const TRADE: &'static str = "trade";

    /// Channel name of candles.
    pub const CANDLE: &'static str = "ohlc";

    /// Map a Barter [`SubKind`]: trades, and candles of an interval [`Kraken`]
    /// offers, are supported.
    pub fn try_from(kind: &SubKind) -> (r: Result<KrakenSubKind, SocketError>)
        ensures
            *kind == SubKind::Trade ==> (r matches Ok(KrakenSubKind::Trade { channel }) && channel@
                == "trade"@),
            kind matches SubKind::Candle(i) ==> match kraken_interval(*i) {
                Some(k) => r matches Ok(KrakenSubKind::Candle { channel, interval }) && channel@
                    == "ohlc"@ && interval == kraken_interval_number(k),
                None => r matches Err(SocketError::Unsupported { entity, item }) && entity@
                    == "kraken"@ && item@ == i.name(),
            },
            (*kind == SubKind::OrderBookL2 || kind is L2OrderBookSnapshot) ==> (r matches Err(
                SocketError::Unsupported { entity, item },
            ) && entity@ == "kraken"@ && item@ == kind.name()),
    {
        match kind {
            SubKind::Trade => Ok(KrakenSubKind::Trade { channel: "trade" }),
            SubKind::Candle(interval) => {
                let k = KrakenInterval::try_from(interval)?;
                Ok(KrakenSubKind::Candle { channel: "ohlc", interval: u32::from(k) })
            },
            other => Err(
                SocketError::Unsupported { entity: ExchangeId::Kraken.as_str(), item: other.to_text() },
            ),
        }
    }
}

/// A [`Kraken`] subscription message built from a Barter [`Subscription`], eg/
/// `{"event": "subscribe", "pair": ["XBT/USD"], "subscription": {"name": "ohlc", "interval": 5}}`.
#[derive(Clone, Debug)]
pub struct KrakenSubscription {
    pub event: &'static str,
    pub market: String,
    pub kind: KrakenSubKind,
}

/// The [`SubscriptionId`] text of a [`KrakenSubscription`]: `"{channel}|{market}"` for
/// trades and `"{channel}-{interval}|{market}"` for candles.
pub open spec fn kraken_subscription_id(kind: KrakenSubKind, market: Seq<char>) -> Seq<char> {
    match kind {
        KrakenSubKind::Trade { channel } => piped(channel@, market),
        KrakenSubKind::Candle { channel, interval } => piped(
            channel@ + "-"@ + decimal(interval as nat),
            market,
        ),
    }
}

/// Whether the channel name of `kind` holds neither `'|'` nor `'-'`, as `"trade"` and
/// `"ohlc"` do.
pub open spec fn kraken_channel_plain(kind: KrakenSubKind) -> bool {
    let channel = match kind {
        KrakenSubKind::Trade { channel } => channel@,
        KrakenSubKind::Candle { channel, .. } => channel@,
    };
    !channel.contains('|') && !channel.contains('-')
}

/// The channel name of `kind`, and the interval of a candle.
pub open spec fn kraken_kind_key(kind: KrakenSubKind) -> (Seq<char>, Option<u32>) {
    match kind {
        KrakenSubKind::Trade { channel } => (channel@, None),
        KrakenSubKind::Candle { channel, interval } => (channel@, Some(interval)),
    }
}

/// Distinct [`Kraken`] subscriptions are registered under distinct ids: an id determines
/// the market and the kind (the channel, and the interval of a candle), so a message is
/// attributed to one subscription only.
pub proof fn lemma_kraken_subscription_ids_distinct(
    k1: KrakenSubKind,
    m1: Seq<char>,
    k2: KrakenSubKind,
    m2: Seq<char>,
)
    requires
        kraken_channel_plain(k1),
        kraken_channel_plain(k2),
        kraken_subscription_id(k1, m1) == kraken_subscription_id(k2, m2),
    ensures
        kraken_kind_key(k1) == kraken_kind_key(k2),
        m1 == m2,
{
    reveal_strlit("-");
    assert("-"@ =~= seq!['-']);
    let left1 = match k1 {
        KrakenSubKind::Trade { channel } => channel@,
        KrakenSubKind::Candle { channel, interval } => channel@ + "-"@ + decimal(interval as nat),
    };
    let left2 = match k2 {
        KrakenSubKind::Trade { channel } => channel@,
        KrakenSubKind::Candle { channel, interval } => channel@ + "-"@ + decimal(interval as nat),
    };
    assert forall|k: KrakenSubKind, left: Seq<char>|
        kraken_channel_plain(k) && left == match k {
            KrakenSubKind::Trade { channel } => channel@,
            KrakenSubKind::Candle { channel, interval } => channel@ + "-"@ + decimal(interval as nat),
        } implies !left.contains('|') by {
        if let KrakenSubKind::Candle { channel, interval } = k {
            lemma_decimal_digits(interval as nat);
            if left.contains('|') {
                let i = choose|i: int| 0 <= i < left.len() && left[i] == '|';
                if i < channel@.len() {
                    assert(channel@[i] == '|');
                } else if i > channel@.len() {
                    assert(decimal(interval as nat)[i - channel@.len() - 1] == '|');
                }
            }
        }
    }
    lemma_piped_injective(left1, m1, left2, m2);
    match (k1, k2) {
        (KrakenSubKind::Candle { channel: c1, interval: i1 }, KrakenSubKind::Candle { channel: c2, interval: i2 }) => {
            lemma_split_at_first(c1@, decimal(i1 as nat), c2@, decimal(i2 as nat), '-');
            lemma_decimal_injective(i1 as nat, i2 as nat);
        },
        (KrakenSubKind::Trade { channel: c1 }, KrakenSubKind::Candle { channel: c2, interval: i2 }) => {
            assert(left2[c2@.len() as int] == '-');
            assert(c1@[c2@.len() as int] == '-');
        },
        (KrakenSubKind::Candle { channel: c1, interval: i1 }, KrakenSubKind::Trade { channel: c2 }) => {
            assert(left1[c1@.len() as int] == '-');
            assert(c2@[c1@.len() as int] == '-');
        },
        _ => {},
    }
}

impl KrakenSubscription {
    /// Construct a new [`KrakenSubscription`] from the provided market (eg/ "XBT/USD")
    /// and [`KrakenSubKind`].
    pub fn new(market: String, kind: KrakenSubKind) -> (r: KrakenSubscription)
        ensures
            r.event@ == "subscribe"@,
            r.market == market,
            r.kind == kind,
    {
        KrakenSubscription { event: "subscribe", market, kind }
    }

    /// The [`SubscriptionId`] of this subscription, eg/ "trade|XBT/USD" or
    /// "ohlc-5|XBT/USD".
    pub fn id(&self) -> (r: SubscriptionId)
        ensures
            r.text() == kraken_subscription_id(self.kind, self.market@),
    {
        match self.kind {
            KrakenSubKind::Trade { channel } => SubscriptionId(
                join_piped(channel, self.market.as_str()),
            ),
            KrakenSubKind::Candle { channel, interval } => {
                let number = u64_to_decimal(interval as u64);
                let name = join3(channel, "-", number.as_str());
                SubscriptionId(join_piped(name.as_str(), self.market.as_str()))
            },
        }
    }
}

/// [`Kraken`] generic error message received over the WebSocket.
#[derive(Clone, Debug)]
pub struct KrakenError {
    pub message: String,
}

/// [`Kraken`] message received in response to WebSocket subscription requests.
#[derive(Clone, Debug)]
pub enum KrakenSubResponse {
    Subscribed { channel_id: u64, channel_name: String, pair: String },
    Error(KrakenError),
}

impl KrakenSubResponse {
    /// Accept a `Subscribed` response; reject an `Error` response with its message.
    pub fn validate(self) -> (r: Result<KrakenSubResponse, SocketError>)
        ensures
            self is Subscribed ==> r == Ok::<KrakenSubResponse, SocketError>(self),
            self matches KrakenSubResponse::Error(e) ==> (r matches Err(SocketError::Subscribe(m))
                && m@ == failure_text(e.message@)),
    {
        match &self {
            KrakenSubResponse::Subscribed { .. } => Ok(self),
            KrakenSubResponse::Error(error) => Err(subscribe_failure(error.message.as_str())),
        }
    }
}

/// [`Kraken`] messages received over the WebSocket which are not subscription data.
#[derive(Clone, Debug)]
pub enum KrakenEvent {
    Heartbeat,
    Error(KrakenError),
}

/// Collection of [`Kraken`] trades with their [`SubscriptionId`] (eg/ "trade|XBT/USD").
#[derive(Clone, Debug)]
pub struct KrakenTrades<T> {
    pub subscription_id: SubscriptionId,
    pub trades: Vec<T>,
}

impl<T> KrakenTrades<T> {
    /// The [`SubscriptionId`] of the trades of `pair`: `"trade|{pair}"`.
    pub fn subscription_id_of(pair: &str) -> (r: SubscriptionId)
        ensures
            r.text() == piped("trade"@, pair@),
    {
        SubscriptionId(join_piped("trade", pair))
    }
}

impl<T> Identifier<Option<SubscriptionId>> for KrakenTrades<T> {
    open spec fn identifies(&self, id: Option<SubscriptionId>) -> bool {
        id == Some(self.subscription_id)
    }

    fn id(&self) -> (r: Option<SubscriptionId>) {
        Some(self.subscription_id.duplicate())
    }
}

/// [`Kraken`] message variants that can be received over the WebSocket.
#[derive(Clone, Debug)]
pub enum KrakenMessage<T> {
    Trades(KrakenTrades<T>),
    Event(KrakenEvent),
}

impl<T> Identifier<Option<SubscriptionId>> for KrakenMessage<T> {
    /// The id of the trades; none for an event.
    open spec fn identifies(&self, id: Option<SubscriptionId>) -> bool {
        id == match self {
            KrakenMessage::Trades(t) => Some(t.subscription_id),
            KrakenMessage::Event(_) => None,
        }
    }

    fn id(&self) -> (r: Option<SubscriptionId>) {
        match self {
            KrakenMessage::Trades(trades) => Some(trades.subscription_id.duplicate()),
            KrakenMessage::Event(_) => None,
        }
    }
}

/// The [`SubscriptionId`] of a [`Kraken`] candle of `channel` (eg/ "ohlc-5") and `pair`:
/// `"{channel}|{pair}"`.
pub fn candle_subscription_id(channel: &str, pair: &str) -> (r: SubscriptionId)
    ensures
        r.text() == piped(channel@, pair@),
{
    SubscriptionId(join_piped(channel, pair))
}

/// [`Kraken`] exchange.
#[derive(Clone, Copy, Debug)]
pub struct Kraken;

impl Kraken {
    /// The name [`Kraken`] is serialised as: the name of its [`ExchangeId`].
    pub fn name() -> (r: &'static str)
        ensures
            r@ == ExchangeId::Kraken.name(),
    {
        ExchangeId::Kraken.as_str()
    }

    /// Deserialise [`Kraken`] from its name: exactly the name of its [`ExchangeId`].
    pub fn from_name(name: &str) -> (r: Option<Kraken>)
        ensures
            r is Some <==> accepts_name(ExchangeId::Kraken, name@),
    {
        if str_eq(name, ExchangeId::Kraken.as_str()) {
            Some(Kraken)
        } else {
            None
        }
    }
    /// The [`ExchangeId`] of [`Kraken`].
    pub const ID: ExchangeId = ExchangeId::Kraken;

    /// The server url of [`Kraken`].
    pub fn url() -> (r: Result<url::Url, SocketError>)
        ensures
            r is Ok <==> spec_url_parses(BASE_URL_KRAKEN@),
    {
        match parse_url(BASE_URL_KRAKEN) {
            Ok(u) => Ok(u),
            Err(e) => Err(SocketError::UrlParse(e)),
        }
    }

    /// One `"subscribe"` request per channel & market pair, in order.
    pub fn requests(exchange_subs: Vec<ExchangeSub<KrakenChannel, KrakenMarket>>) -> (r: Vec<
        KrakenSubRequest,
    >)
        ensures
            r@.len() == exchange_subs@.len(),
            forall|i: int|
                0 <= i < r@.len() ==> (#[trigger] r@[i]).is_for(
                    exchange_subs@[i].channel.0@,
                    exchange_subs@[i].market.0@,
                ),
    {
        let mut out: Vec<KrakenSubRequest> = Vec::new();
        let mut i: usize = 0;
        while i < exchange_subs.len()
            invariant
                i <= exchange_subs@.len(),
                out@.len() == i,
                forall|j: int|
                    0 <= j < i ==> (#[trigger] out@[j]).is_for(
                        exchange_subs@[j].channel.0@,
                        exchange_subs@[j].market.0@,
                    ),
            decreases exchange_subs@.len() - i,
        {
            let sub = &exchange_subs[i];
            out.push(KrakenSubRequest::new(sub.channel.as_str(), sub.market.as_str()));
            i = i + 1;
        }
        out
    }

    /// Map a Barter [`Subscription`] into a [`KrakenSubscription`]: the pair is
    /// `"{base}/{quote}"` uppercased and the kind mapped by [`KrakenSubKind::try_from`].
    pub fn subscription(sub: &Subscription) -> (r: Result<KrakenSubscription, SocketError>)
        ensures
            r matches Ok(s) ==> s.event@ == "subscribe"@ && s.market@ == kraken_market_name(
                sub.instrument,
            ) && s.market@ == kraken_market_text(sub.instrument),
            (sub.kind == SubKind::Trade || (sub.kind matches SubKind::Candle(i) && kraken_interval(
                i,
            ) is Some)) <==> r is Ok,
    {
        let kind = KrakenSubKind::try_from(&sub.kind)?;
        let market = KrakenMarket::for_instrument(&sub.instrument);
        Ok(KrakenSubscription::new(market.0, kind))
    }
}

} // verus!
