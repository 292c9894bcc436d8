//! [`Okx`] exchange: channel & market names, subscription requests, subscription
//! responses and message identifiers.

use crate::endpoint::{parse_url, spec_url_parses};
use crate::error::{code_failure_text, subscribe_code_failure, SocketError};
use crate::exchange::{accepts_name, ExchangeId, ExchangeSub, Named};
use crate::model::{Instrument, InstrumentKind, OptionKind, SubKind, Subscription, SubscriptionId};
use crate::text::{
    all_ascii, ascii_upper_text, lemma_ascii_concat, str_eq, join_piped, piped, spec_uppercase, to_uppercase,
    uppercase,
};
use crate::time::{spec_utc_date_text, utc_date_text};
use crate::Identifier;
use vstd::prelude::*;

pub mod book;

verus! {

/// [`Okx`] server base url.
pub const BASE_URL_OKX: &'static str = "wss://wsaws.okx.com:8443/ws/v5/public";

/// An [`Okx`] channel to be subscribed to, eg/ `OkxChannel("trades")`.
#[derive(Clone, Copy, Debug)]
pub struct OkxChannel(pub &'static str);

impl OkxChannel {
    /// [`Okx`] real-time trades channel: `"trades"`.
    pub fn trades() -> (r: OkxChannel)
        ensures
            r.0@ == "trades"@,
    {
        OkxChannel("trades")
    }

    /// The channel that serves subscriptions of `kind`: only public trades are
    /// supported.
    pub fn for_kind(kind: &SubKind) -> (r: Result<OkxChannel, SocketError>)
        ensures
            *kind == SubKind::Trade ==> (r matches Ok(c) && c.0@ == "trades"@),
            *kind != SubKind::Trade ==> (r matches Err(SocketError::Unsupported { entity, item })
                && entity@ == "okx"@ && item@ == kind.name()),
    {
        match kind {
            SubKind::Trade => Ok(OkxChannel::trades()),
            _ => Err(SocketError::Unsupported { entity: ExchangeId::Okx.as_str(), item: kind.to_text() }),
        }
    }
}

impl Named for OkxChannel {
    open spec fn name(&self) -> Seq<char> {
        self.0@
    }

    fn as_str(&self) -> (r: &str) {
        self.0
    }
}

/// The [`Okx`] instrument id of `instrument`, or `None` where its expiry date cannot be
/// rendered:
/// - spot: `"{BASE}-{QUOTE}"`
/// - future: `"{BASE}-{QUOTE}-{YYMMDD}"`
/// - perpetual: `"{BASE}-{QUOTE}-SWAP"`
/// - option: `"{BASE}-{QUOTE}-{YYMMDD}-{STRIKE}-{C|P}"`
/// all uppercased, the expiry rendered with `"%g%m%d"`.
pub open spec fn okx_market_name(instrument: Instrument) -> Option<Seq<char>> {
    let pair = instrument.base@ + "-"@ + instrument.quote@;
    match instrument.kind {
        InstrumentKind::Spot => Some(spec_uppercase(pair)),
        InstrumentKind::Future { expiry_ms } => match spec_utc_date_text(expiry_ms, "%g%m%d"@) {
            Some(date) => Some(spec_uppercase(pair + "-"@ + date)),
            None => None,
        },
        InstrumentKind::Perpetual => Some(spec_uppercase(pair + "-SWAP"@)),
        InstrumentKind::Option(contract) => match spec_utc_date_text(
            contract.expiry_ms,
            "%g%m%d"@,
        ) {
            Some(date) => Some(
                spec_uppercase(
                    pair + "-"@ + date + "-"@ + contract.strike@ + "-"@ + match contract.kind {
                        OptionKind::Call => "C"@,
                        OptionKind::Put => "P"@,
                    },
                ),
            ),
            None => None,
        },
    }
}

/// The [`Okx`] instrument id of `instrument` as `str::to_uppercase` renders it (see
/// [`okx_market_name`]), or `None` where its expiry date cannot be rendered.
pub open spec fn okx_market_text(instrument: Instrument) -> Option<Seq<char>> {
    let pair = instrument.base@ + "-"@ + instrument.quote@;
    match instrument.kind {
        InstrumentKind::Spot => Some(uppercase(pair)),
        InstrumentKind::Future { expiry_ms } => match spec_utc_date_text(expiry_ms, "%g%m%d"@) {
            Some(date) => Some(uppercase(pair + "-"@ + date)),
            None => None,
        },
        InstrumentKind::Perpetual => Some(uppercase(pair + "-SWAP"@)),
        InstrumentKind::Option(contract) => match spec_utc_date_text(
            contract.expiry_ms,
            "%g%m%d"@,
        ) {
            Some(date) => Some(
                uppercase(
                    pair + "-"@ + date + "-"@ + contract.strike@ + "-"@ + match contract.kind {
                        OptionKind::Call => "C"@,
                        OptionKind::Put => "P"@,
                    },
                ),
            ),
            None => None,
        },
    }
}

/// For ASCII symbols the [`Okx`] id of a spot instrument is exactly the base, a `'-'`,
/// then the quote, uppercased (eg/ "btc", "usdt" give "BTC-USDT"); the id of the
/// perpetual swap of the same pair is that id followed by `"-SWAP"`, so a spot
/// instrument and the perpetual of its pair never share an id.
pub proof fn lemma_okx_spot_and_perpetual_ids(spot: Instrument, perpetual: Instrument)
    requires
        spot.kind is Spot,
        perpetual.kind is Perpetual,
        spot.base@ == perpetual.base@,
        spot.quote@ == perpetual.quote@,
        all_ascii(spot.base@),
        all_ascii(spot.quote@),
    ensures
        okx_market_text(spot) == Some(
            ascii_upper_text(spot.base@) + seq!['-'] + ascii_upper_text(spot.quote@),
        ),
        okx_market_text(perpetual) == Some(
            ascii_upper_text(spot.base@) + seq!['-'] + ascii_upper_text(spot.quote@) + seq![
                '-',
                'S',
                'W',
                'A',
                'P',
            ],
        ),
        okx_market_text(spot) != okx_market_text(perpetual),
{
    reveal_strlit("-");
    reveal_strlit("-SWAP");
    assert("-"@ =~= seq!['-']);
    assert("-SWAP"@ =~= seq!['-', 'S', 'W', 'A', 'P']);
    let b = spot.base@;
    let q = spot.quote@;
    let swap = seq!['-', 'S', 'W', 'A', 'P'];
    lemma_ascii_concat(b, seq!['-']);
    lemma_ascii_concat(b + seq!['-'], q);
    lemma_ascii_concat(b + seq!['-'] + q, swap);
    assert(ascii_upper_text(seq!['-']) =~= seq!['-']);
    assert(ascii_upper_text(swap) =~= swap);
    let s = ascii_upper_text(b) + seq!['-'] + ascii_upper_text(q);
    assert((s + swap).len() == s.len() + 5);
}

/// An [`Okx`] market (instrument id) to be subscribed to, eg/ `OkxMarket("BTC-USDT")`.
#[derive(Clone, Debug)]
pub struct OkxMarket(pub String);

impl OkxMarket {
    /// The [`Okx`] market of `instrument` (see [`okx_market_name`]).
    pub fn for_instrument(instrument: &Instrument) -> (r: Option<OkxMarket>)
        ensures
            r matches Some(m) ==> okx_market_name(*instrument) == Some(m.0@),
            r is None ==> okx_market_name(*instrument) is None,
            r matches Some(m) ==> okx_market_text(*instrument) == Some(m.0@),
            r is None ==> okx_market_text(*instrument) is None,
    {
        let mut pair = String::from_str(instrument.base.as_str());
        pair.append("-");
        pair.append(instrument.quote.as_str());
        proof {
            reveal_strlit("%g%m%d");
        }
        match &instrument.kind {
            InstrumentKind::Spot => Some(OkxMarket(to_uppercase(pair.as_str()))),
            InstrumentKind::Future { expiry_ms } => match utc_date_text(*expiry_ms, "%g%m%d") {
                Some(date) => {
                    pair.append("-");
                    pair.append(date.as_str());
                    Some(OkxMarket(to_uppercase(pair.as_str())))
                },
                None => None,
            },
            InstrumentKind::Perpetual => {
                pair.append("-SWAP");
                Some(OkxMarket(to_uppercase(pair.as_str())))
            },
            InstrumentKind::Option(contract) => match utc_date_text(contract.expiry_ms, "%g%m%d") {
                Some(date) => {
                    pair.append("-");
                    pair.append(date.as_str());
                    pair.append("-");
                    pair.append(contract.strike.as_str());
                    pair.append("-");
                    match contract.kind {
                        OptionKind::Call => pair.append("C"),
                        OptionKind::Put => pair.append("P"),
                    }
                    Some(OkxMarket(to_uppercase(pair.as_str())))
                },
                None => None,
            },
        }
    }
}

impl Named for OkxMarket {
    open spec fn name(&self) -> Seq<char> {
        self.0@
    }

    fn as_str(&self) -> (r: &str) {
        self.0.as_str()
    }
}

/// Generate an [`Okx`] [`SubscriptionId`] from the channel and market provided:
/// `"{channel}|{market}"`, eg/ `SubscriptionId("trades|ETH-USD")`.
pub fn subscription_id(channel: &str, market: &str) -> (r: SubscriptionId)
    ensures
        r.text() == piped(channel@, market@),
{
    SubscriptionId(join_piped(channel, market))
}

/// Channel & instrument id of one [`Okx`] subscription, sent as
/// `{"channel": channel, "instId": market}`.
#[derive(Clone, Debug)]
pub struct OkxSubMeta {
    pub channel: OkxChannel,
    pub market: String,
}

impl OkxSubMeta {
    /// Map a Barter [`Subscription`] into [`Okx`] channel & instrument id.
    pub fn new(sub: &Subscription) -> (r: Result<Option<OkxSubMeta>, SocketError>)
        ensures
            sub.kind == SubKind::Trade ==> (r matches Ok(m) && match okx_market_name(
                sub.instrument,
            ) {
                Some(name) => m matches Some(meta) && meta.channel.0@ == "trades"@ && meta.market@
                    == name && okx_market_text(sub.instrument) == Some(meta.market@),
                None => m is None,
            }),
            sub.kind != SubKind::Trade ==> (r matches Err(SocketError::Unsupported { entity, item })
                && entity@ == "okx"@ && item@ == sub.kind.name()),
    {
        let channel = OkxChannel::for_kind(&sub.kind)?;
        match OkxMarket::for_instrument(&sub.instrument) {
            Some(market) => Ok(Some(OkxSubMeta { channel, market: market.0 })),
            None => Ok(None),
        }
    }

    /// The [`SubscriptionId`] of this subscription: `"{channel}|{market}"`.
    pub fn id(&self) -> (r: SubscriptionId)
        ensures
            r.text() == piped(self.channel.0@, self.market@),
    {
        subscription_id(self.channel.0, self.market.as_str())
    }

    /// The single subscription request subscribing to every subscription, in order.
    pub fn requests(subscriptions: Vec<OkxSubMeta>) -> (r: OkxSubRequest)
        ensures
            r.op@ == "subscribe"@,
            r.args@.len() == subscriptions@.len(),
            forall|i: int|
                0 <= i < r.args@.len() ==> (#[trigger] r.args@[i]).0@ == subscriptions@[i].channel.0@
                    && r.args@[i].1@ == subscriptions@[i].market@,
    {
        let mut args: Vec<(String, String)> = Vec::new();
        let mut i: usize = 0;
        while i < subscriptions.len()
            invariant
                i <= subscriptions@.len(),
                args@.len() == i,
                forall|j: int|
                    0 <= j < i ==> (#[trigger] args@[j]).0@ == subscriptions@[j].channel.0@
                        && args@[j].1@ == subscriptions@[j].market@,
            decreases subscriptions@.len() - i,
        {
            let meta = &subscriptions[i];
            args.push((String::from_str(meta.channel.0), String::from_str(meta.market.as_str())));
            i = i + 1;
        }
        OkxSubRequest { op: "subscribe", args }
    }
}

/// An [`Okx`] subscription request, sent as the JSON object
/// `{"op": "subscribe", "args": [{"channel": .., "instId": ..}, ..]}`.
#[derive(Debug)]
pub struct OkxSubRequest {
    pub op: &'static str,
    pub args: Vec<(String, String)>,
}

/// [`Okx`] WebSocket subscription response.
#[derive(Clone, Debug)]
pub enum OkxSubResponse {
    Subscribed,
    Error { code: String, message: String },
}

impl OkxSubResponse {
    /// Accept a `Subscribed` response; reject an `Error` response with its code and
    /// message.
    pub fn validate(self) -> (r: Result<OkxSubResponse, SocketError>)
        ensures
            self is Subscribed ==> r == Ok::<OkxSubResponse, SocketError>(self),
            self matches OkxSubResponse::Error { code, message } ==> (r matches Err(
                SocketError::Subscribe(m),
            ) && m@ == code_failure_text(code@, message@)),
    {
        match &self {
            OkxSubResponse::Subscribed => Ok(self),
            OkxSubResponse::Error { code, message } => Err(
                subscribe_code_failure(code.as_str(), message.as_str()),
            ),
        }
    }
}

/// [`Okx`] market data message: the [`SubscriptionId`] of its "arg" and the data.
#[derive(Clone, Debug)]
pub struct OkxMessage<T> {
    pub subscription_id: SubscriptionId,
    pub data: Vec<T>,
}

impl<T> Identifier<Option<SubscriptionId>> for OkxMessage<T> {
    open spec fn identifies(&self, id: Option<SubscriptionId>) -> bool {
        id == Some(self.subscription_id)
    }

    fn id(&self) -> (r: Option<SubscriptionId>) {
        Some(self.subscription_id.duplicate())
    }
}

/// The [`SubscriptionId`] of an [`Okx`] message "arg" with `channel` and `inst_id`:
/// `"{channel}|{inst_id}"`.
pub fn arg_subscription_id(channel: &str, inst_id: &str) -> (r: SubscriptionId)
    ensures
        r.text() == piped(channel@, inst_id@),
{
    subscription_id(channel, inst_id)
}

/// [`Okx`] exchange.
#[derive(Clone, Copy, Debug)]
pub struct Okx;

impl Okx {
    /// The name [`Okx`] is serialised as: the name of its [`ExchangeId`].
    pub fn name() -> (r: &'static str)
        ensures
            r@ == ExchangeId::Okx.name(),
    {
        ExchangeId::Okx.as_str()
    }

    /// Deserialise [`Okx`] from its name: exactly the name of its [`ExchangeId`].
    pub fn from_name(name: &str) -> (r: Option<Okx>)
        ensures
            r is Some <==> accepts_name(ExchangeId::Okx, name@),
    {
        if str_eq(name, ExchangeId::Okx.as_str()) {
            Some(Okx)
        } else {
            None
        }
    }
    /// The [`ExchangeId`] of [`Okx`].
    pub const ID: ExchangeId = ExchangeId::Okx;

    /// The server url of [`Okx`].
    pub fn url() -> (r: Result<url::Url, SocketError>)
        ensures
            r is Ok <==> spec_url_parses(BASE_URL_OKX@),
    {
        match parse_url(BASE_URL_OKX) {
            Ok(u) => Ok(u),
            Err(e) => Err(SocketError::UrlParse(e)),
        }
    }

    /// The single subscription request subscribing to every channel & market pair, in
    /// order.
    pub fn requests(exchange_subs: Vec<ExchangeSub<OkxChannel, OkxMarket>>) -> (r: OkxSubRequest)
        ensures
            r.op@ == "subscribe"@,
            r.args@.len() == exchange_subs@.len(),
            forall|i: int|
                0 <= i < r.args@.len() ==> (#[trigger] r.args@[i]).0@
                    == exchange_subs@[i].channel.0@ && r.args@[i].1@ == exchange_subs@[i].market.0@,
    {
        let mut args: Vec<(String, String)> = Vec::new();
        let mut i: usize = 0;
        while i < exchange_subs.len()
            invariant
                i <= exchange_subs@.len(),
                args@.len() == i,
                forall|j: int|
                    0 <= j < i ==> (#[trigger] args@[j]).0@ == exchange_subs@[j].channel.0@
                        && args@[j].1@ == exchange_subs@[j].market.0@,
            decreases exchange_subs@.len() - i,
        {
            let sub = &exchange_subs[i];
            args.push((String::from_str(sub.channel.as_str()), String::from_str(sub.market.as_str())));
            i = i + 1;
        }
        OkxSubRequest { op: "subscribe", args }
    }
}

} // verus!
