//! [`Deribit`] exchange: channel & market names, the subscription request, the
//! subscription response check and the parsing of the "channel" field of messages.

use crate::endpoint::{parse_url, spec_url_parses};
use crate::error::{failure_text, SocketError};
use crate::exchange::{accepts_name, ExchangeId, ExchangeSub, Named};
use crate::model::{Instrument, InstrumentKind, OptionExercise, OptionKind, SubscriptionId};
use crate::text::{
    all_ascii, ascii_upper, ascii_upper_text, decimal, find_char, is_first, join_piped,
    lemma_ascii_concat, lemma_ascii_upper_char, lemma_first_unique, piped, spec_uppercase, str_eq,
    to_uppercase, token_after, token_before, u64_to_decimal, uppercase,
};
use crate::model::OptionContract;
use crate::time::{spec_utc_date_text, utc_date_text};
use crate::Identifier;
use vstd::prelude::*;

verus! {

/// [`Deribit`] server base url.
pub const BASE_URL_DERIBIT: &'static str = "www.deribit.com";

/// A [`Deribit`] channel to be subscribed to, eg/ `DeribitChannel("trades")`.
#[derive(Clone, Copy, Debug)]
pub struct DeribitChannel(pub &'static str);

impl DeribitChannel {
    /// Real-time trades channel: `"trades"`.
    pub fn trades() -> (r: DeribitChannel)
        ensures
            r.0@ == "trades"@,
    {
        DeribitChannel("trades")
    }

    /// Top of book channel: `"quote"`.
    pub fn order_book_l1() -> (r: DeribitChannel)
        ensures
            r.0@ == "quote"@,
    {
        DeribitChannel("quote")
    }
}

impl Named for DeribitChannel {
    open spec fn name(&self) -> Seq<char> {
        self.0@
    }

    fn as_str(&self) -> (r: &str) {
        self.0
    }
}

/// A [`Deribit`] market (instrument name) to be subscribed to, eg/ `"BTC-24MAY24"`.
#[derive(Clone, Debug)]
pub struct DeribitMarket(pub String);

impl Named for DeribitMarket {
    open spec fn name(&self) -> Seq<char> {
        self.0@
    }

    fn as_str(&self) -> (r: &str) {
        self.0.as_str()
    }
}

/// Whether [`Deribit`] can name `instrument`: futures are always quoted in "usd" and
/// options always have european exercise.
pub open spec fn deribit_names(instrument: Instrument) -> bool {
    match instrument.kind {
        InstrumentKind::Future { .. } => instrument.quote@ == "usd"@,
        InstrumentKind::Option(contract) => contract.exercise == OptionExercise::European,
        _ => true,
    }
}

/// The [`Deribit`] name of `instrument`, or `None` where its expiry date cannot be
/// rendered:
/// - spot: `"{BASE}_{QUOTE}"`
/// - future: `"{BASE}-{DMMMYY}"`
/// - perpetual: `"{BASE}-PERPETUAL"` when quoted in "usd", else `"{BASE}_{QUOTE}-PERPETUAL"`
/// - option: `"{BASE}-{DMMMYY}-{STRIKE}-{C|P}"`
/// all uppercased.
pub open spec fn deribit_market_name(instrument: Instrument) -> Option<Seq<char>> {
    let base = instrument.base@;
    let quote = instrument.quote@;
    match instrument.kind {
        InstrumentKind::Spot => Some(spec_uppercase(base + "_"@ + quote)),
        InstrumentKind::Future { expiry_ms } => match spec_utc_date_text(expiry_ms, "%-d%b%y"@) {
            Some(date) => Some(spec_uppercase(base + "-"@ + date)),
            None => None,
        },
        InstrumentKind::Perpetual => if quote == "usd"@ {
            Some(spec_uppercase(base + "-PERPETUAL"@))
        } else {
            Some(spec_uppercase(base + "_"@ + quote + "-PERPETUAL"@))
        },
        InstrumentKind::Option(contract) => match spec_utc_date_text(
            contract.expiry_ms,
            "%-d%b%y"@,
        ) {
            Some(date) => Some(
                spec_uppercase(
                    base + "-"@ + date + "-"@ + contract.strike@ + "-"@ + match contract.kind {
                        OptionKind::Call => "C"@,
                        OptionKind::Put => "P"@,
                    },
                ),
            ),
            None => None,
        },
    }
}

/// The [`Deribit`] name of `instrument` as `str::to_uppercase` renders it (see
/// [`deribit_market_name`]), or `None` where its expiry date cannot be rendered.
pub open spec fn deribit_market_text(instrument: Instrument) -> Option<Seq<char>> {
    let base = instrument.base@;
    let quote = instrument.quote@;
    match instrument.kind {
        InstrumentKind::Spot => Some(uppercase(base + "_"@ + quote)),
        InstrumentKind::Future { expiry_ms } => match spec_utc_date_text(expiry_ms, "%-d%b%y"@) {
            Some(date) => Some(uppercase(base + "-"@ + date)),
            None => None,
        },
        InstrumentKind::Perpetual => if quote == "usd"@ {
            Some(uppercase(base + "-PERPETUAL"@))
        } else {
            Some(uppercase(base + "_"@ + quote + "-PERPETUAL"@))
        },
        InstrumentKind::Option(contract) => match spec_utc_date_text(
            contract.expiry_ms,
            "%-d%b%y"@,
        ) {
            Some(date) => Some(
                uppercase(
                    base + "-"@ + date + "-"@ + contract.strike@ + "-"@ + match contract.kind {
                        OptionKind::Call => "C"@,
                        OptionKind::Put => "P"@,
                    },
                ),
            ),
            None => None,
        },
    }
}

/// The contract of an option instrument.
pub open spec fn option_contract(instrument: Instrument) -> OptionContract {
    match instrument.kind {
        InstrumentKind::Option(contract) => contract,
        _ => arbitrary(),
    }
}

/// The [`Deribit`] name of an option with ASCII base, strike and expiry date ends in
/// `'C'` for a call and in `'P'` for a put.
pub proof fn lemma_deribit_option_suffix(instrument: Instrument)
    requires
        instrument.kind is Option,
        spec_utc_date_text(option_contract(instrument).expiry_ms, "%-d%b%y"@) is Some,
        all_ascii(instrument.base@),
        all_ascii(option_contract(instrument).strike@),
        all_ascii(spec_utc_date_text(option_contract(instrument).expiry_ms, "%-d%b%y"@).unwrap()),
    ensures
        deribit_market_text(instrument) is Some,
        deribit_market_text(instrument).unwrap().len() > 0,
        deribit_market_text(instrument).unwrap().last() == match option_contract(instrument).kind {
            OptionKind::Call => 'C',
            OptionKind::Put => 'P',
        },
{
    reveal_strlit("-");
    reveal_strlit("C");
    reveal_strlit("P");
    let c = option_contract(instrument);
    let date = spec_utc_date_text(c.expiry_ms, "%-d%b%y"@).unwrap();
    let letter = match c.kind {
        OptionKind::Call => "C"@,
        OptionKind::Put => "P"@,
    };
    let pre = instrument.base@ + "-"@ + date + "-"@ + c.strike@ + "-"@;
    assert(all_ascii("-"@));
    assert(all_ascii(letter));
    lemma_ascii_concat(instrument.base@, "-"@);
    lemma_ascii_concat(instrument.base@ + "-"@, date);
    lemma_ascii_concat(instrument.base@ + "-"@ + date, "-"@);
    lemma_ascii_concat(instrument.base@ + "-"@ + date + "-"@, c.strike@);
    lemma_ascii_concat(instrument.base@ + "-"@ + date + "-"@ + c.strike@, "-"@);
    lemma_ascii_concat(pre, letter);
    let text = ascii_upper_text(pre + letter);
    assert(text.last() == ascii_upper(letter[0]));
    lemma_ascii_upper_char(letter[0]);
}

/// A call and a put of the same contract (ASCII base, strike and expiry date) get
/// distinct [`Deribit`] names.
pub proof fn lemma_deribit_call_put_distinct(call: Instrument, put: Instrument)
    requires
        call.kind is Option,
        put.kind is Option,
        option_contract(call).kind == OptionKind::Call,
        option_contract(put).kind == OptionKind::Put,
        call.base@ == put.base@,
        option_contract(call).expiry_ms == option_contract(put).expiry_ms,
        option_contract(call).strike@ == option_contract(put).strike@,
        spec_utc_date_text(option_contract(call).expiry_ms, "%-d%b%y"@) is Some,
        all_ascii(call.base@),
        all_ascii(option_contract(call).strike@),
        all_ascii(spec_utc_date_text(option_contract(call).expiry_ms, "%-d%b%y"@).unwrap()),
    ensures
        deribit_market_text(call) != deribit_market_text(put),
{
    lemma_deribit_option_suffix(call);
    lemma_deribit_option_suffix(put);
}

impl DeribitMarket {
    /// The [`Deribit`] market of `instrument` (see [`deribit_market_name`]).
    pub fn for_instrument(instrument: &Instrument) -> (r: Option<DeribitMarket>)
        requires
            deribit_names(*instrument),
        ensures
            r matches Some(m) ==> deribit_market_name(*instrument) == Some(m.0@),
            r is None ==> deribit_market_name(*instrument) is None,
            r matches Some(m) ==> deribit_market_text(*instrument) == Some(m.0@),
            r is None ==> deribit_market_text(*instrument) is None,
    {
        let base = instrument.base.as_str();
        let quote = instrument.quote.as_str();
        match &instrument.kind {
            InstrumentKind::Spot => {
                let mut s = String::from_str(base);
                s.append("_");
                s.append(quote);
                Some(DeribitMarket(to_uppercase(s.as_str())))
            },
            InstrumentKind::Future { expiry_ms } => {
                proof {
                    reveal_strlit("%-d%b%y");
                }
                match utc_date_text(*expiry_ms, "%-d%b%y") {
                    Some(date) => {
                        let mut s = String::from_str(base);
                        s.append("-");
                        s.append(date.as_str());
                        Some(DeribitMarket(to_uppercase(s.as_str())))
                    },
                    None => None,
                }
            },
            InstrumentKind::Perpetual => {
                let mut s = String::from_str(base);
                if str_eq(quote, "usd") {
                    s.append("-PERPETUAL");
                } else {
                    s.append("_");
                    s.append(quote);
                    s.append("-PERPETUAL");
                }
                Some(DeribitMarket(to_uppercase(s.as_str())))
            },
            InstrumentKind::Option(contract) => {
                proof {
                    reveal_strlit("%-d%b%y");
                }
                match utc_date_text(contract.expiry_ms, "%-d%b%y") {
                    Some(date) => {
                        let mut s = String::from_str(base);
                        s.append("-");
                        s.append(date.as_str());
                        s.append("-");
                        s.append(contract.strike.as_str());
                        s.append("-");
                        match contract.kind {
                            OptionKind::Call => s.append("C"),
                            OptionKind::Put => s.append("P"),
                        }
                        Some(DeribitMarket(to_uppercase(s.as_str())))
                    },
                    None => None,
                }
            },
        }
    }
}

/// The channel a [`Deribit`] subscription request names for `channel` of `market`:
/// `"{channel}.{market}.raw"`.
pub open spec fn deribit_request_channel(channel: Seq<char>, market: Seq<char>) -> Seq<char> {
    channel + "."@ + market + ".raw"@
}

/// Parameters of a [`Deribit`] "public/subscribe" request.
#[derive(Clone, Debug)]
pub struct DeribitSubParams {
    pub channels: Vec<String>,
}

/// A [`Deribit`] JSON-RPC request.
#[derive(Clone, Debug)]
pub struct DeribitRequest<'a, T> {
    pub jsonrpc: &'a str,
    pub id: u32,
    pub method: &'a str,
    pub params: T,
}

impl<'a> DeribitRequest<'a, DeribitSubParams> {
    /// One "public/subscribe" request naming the channel of every channel & market pair,
    /// in order.
    pub fn from_iter(subs: Vec<ExchangeSub<DeribitChannel, DeribitMarket>>) -> (r: DeribitRequest<
        'static,
        DeribitSubParams,
    >)
        ensures
            r.jsonrpc@ == "2.0"@,
            r.id == 0,
            r.method@ == "public/subscribe"@,
            r.params.channels@.len() == subs@.len(),
            forall|i: int|
                0 <= i < subs@.len() ==> (#[trigger] r.params.channels@[i])@
                    == deribit_request_channel(subs@[i].channel.0@, subs@[i].market.0@),
    {
        let mut channels: Vec<String> = Vec::new();
        let mut i: usize = 0;
        while i < subs.len()
            invariant
                i <= subs@.len(),
                channels@.len() == i,
                forall|j: int|
                    0 <= j < i ==> (#[trigger] channels@[j])@ == deribit_request_channel(
                        subs@[j].channel.0@,
                        subs@[j].market.0@,
                    ),
            decreases subs@.len() - i,
        {
            let sub = &subs[i];
            let mut s = String::from_str(sub.channel.0);
            s.append(".");
            s.append(sub.market.0.as_str());
            s.append(".raw");
            channels.push(s);
            i = i + 1;
        }
        DeribitRequest {
            jsonrpc: "2.0",
            id: 0,
            method: "public/subscribe",
            params: DeribitSubParams { channels },
        }
    }
}

/// [`Deribit`] subscription response: the request id and the channels subscribed to.
#[derive(Clone, Debug)]
pub struct DeribitResponse<T> {
    pub id: u32,
    pub result: T,
}

/// The text a [`DeribitResponse`] with no channels is reported with: its `Debug` text.
pub open spec fn empty_response_text(id: u32) -> Seq<char> {
    "DeribitResponse { id: "@ + decimal(id as nat) + ", result: [] }"@
}

impl DeribitResponse<Vec<String>> {
    /// Accept a response that subscribed to at least one channel; reject one that
    /// subscribed to none.
    pub fn validate(self) -> (r: Result<DeribitResponse<Vec<String>>, SocketError>)
        ensures
            self.result@.len() > 0 ==> r == Ok::<DeribitResponse<Vec<String>>, SocketError>(
                self,
            ),
            self.result@.len() == 0 ==> (r matches Err(SocketError::Subscribe(m)) && m@
                == failure_text(empty_response_text(self.id))),
    {
        if self.result.len() == 0 {
            let mut s = String::from_str("received failure subscription response: ");
            s.append("DeribitResponse { id: ");
            let id = u64_to_decimal(self.id as u64);
            s.append(id.as_str());
            s.append(", result: [] }");
            Err(SocketError::Subscribe(s))
        } else {
            Ok(self)
        }
    }
}

/// The `params` of a [`Deribit`] data message.
#[derive(Clone, Debug)]
pub struct DeribitParams<T> {
    pub subscription_id: SubscriptionId,
    pub data: T,
}

/// A [`Deribit`] data message.
#[derive(Clone, Debug)]
pub struct DeribitMessage<T> {
    pub params: DeribitParams<T>,
}

impl<T> Identifier<Option<SubscriptionId>> for DeribitMessage<T> {
    open spec fn identifies(&self, id: Option<SubscriptionId>) -> bool {
        id == Some(self.params.subscription_id)
    }

    fn id(&self) -> (r: Option<SubscriptionId>) {
        Some(self.params.subscription_id.duplicate())
    }
}

/// The error text of a "channel" field that holds no `'.'`.
pub open spec fn channel_format_error(value: Seq<char>) -> Seq<char> {
    "Deribit \"channel\" field .split('.') has unexpected format: missing first token: "@
        + value
}

/// The [`SubscriptionId`] a [`Deribit`] "channel" field (eg/ "trades.BTC-24MAY24.raw")
/// stands for: its first two `'.'`-separated items joined as `"{channel}|{market}"`.
pub open spec fn deribit_channel_subscription_id(value: Seq<char>) -> Result<Seq<char>, Seq<char>> {
    if value.contains('.') {
        Ok(piped(token_before(value, '.'), token_before(token_after(value, '.'), '.')))
    } else {
        Err(channel_format_error(value))
    }
}

/// Parse a [`Deribit`] "channel" field value (eg/ "trades.BTC-24MAY24.raw") as the
/// [`SubscriptionId`] of its channel & market (eg/ "trades|BTC-24MAY24").
pub fn parse_deribit_channel_field_as_subscription_id(value: &str) -> (r: Result<
    SubscriptionId,
    String,
>)
    ensures
        r matches Ok(id) ==> deribit_channel_subscription_id(value@) == Ok::<
            Seq<char>,
            Seq<char>,
        >(id.text()),
        r matches Err(e) ==> deribit_channel_subscription_id(value@) == Err::<
            Seq<char>,
            Seq<char>,
        >(e@),
{
    let n = value.unicode_len();
    match find_char(value, 0, '.') {
        None => {
            let s = String::from_str(
                "Deribit \"channel\" field .split('.') has unexpected format: missing first token: ",
            );
            proof {
                assert(!value@.contains('.'));
            }
            Err(s.concat(value))
        },
        Some(i) => {
            let channel = value.substring_char(0, i);
            let end = match find_char(value, i + 1, '.') {
                Some(j) => j,
                None => n,
            };
            let market = value.substring_char(i + 1, end);
            proof {
                let v = value@;
                assert(is_first(v, '.', i as int));
                let k = choose|k: int| is_first(v, '.', k);
                lemma_first_unique(v, '.', i as int, k);
                assert(v.contains('.')) by {
                    assert(v[i as int] == '.');
                }
                let rest = v.skip(i + 1);
                assert(token_after(v, '.') == rest);
                if end < n {
                    let e = end - (i + 1);
                    assert(is_first(rest, '.', e));
                    let k2 = choose|k: int| is_first(rest, '.', k);
                    lemma_first_unique(rest, '.', e, k2);
                    assert(token_before(rest, '.') =~= market@);
                } else {
                    assert(!exists|k: int| is_first(rest, '.', k));
                    assert(token_before(rest, '.') =~= market@);
                }
                assert(token_before(v, '.') =~= channel@);
            }
            Ok(SubscriptionId(join_piped(channel, market)))
        },
    }
}

/// The channel field of a message on a subscription made by [`DeribitRequest::from_iter`]
/// parses back to the [`SubscriptionId`] of that subscription's channel & market.
pub proof fn lemma_deribit_request_channel_round_trip(channel: Seq<char>, market: Seq<char>)
    requires
        !channel.contains('.'),
        !market.contains('.'),
    ensures
        deribit_channel_subscription_id(deribit_request_channel(channel, market)) == Ok::<
            Seq<char>,
            Seq<char>,
        >(piped(channel, market)),
{
    reveal_strlit(".");
    reveal_strlit(".raw");
    let v = deribit_request_channel(channel, market);
    let c = channel.len() as int;
    assert(v[c] == '.');
    assert forall|j: int| 0 <= j < c implies v[j] != '.' by {
        assert(v[j] == channel[j]);
    }
    assert(is_first(v, '.', c));
    let k = choose|k: int| is_first(v, '.', k);
    lemma_first_unique(v, '.', c, k);
    assert(v.contains('.'));
    assert(token_before(v, '.') =~= channel);
    let rest = token_after(v, '.');
    assert(rest =~= market + ".raw"@);
    let m = market.len() as int;
    assert(rest[m] == '.');
    assert forall|j: int| 0 <= j < m implies rest[j] != '.' by {
        assert(rest[j] == market[j]);
    }
    assert(is_first(rest, '.', m));
    let k2 = choose|k: int| is_first(rest, '.', k);
    lemma_first_unique(rest, '.', m, k2);
    assert(token_before(rest, '.') =~= market);
}

/// [`Deribit`] exchange.
#[derive(Clone, Copy, Debug)]
pub struct Deribit;

impl Deribit {
    /// The name [`Deribit`] is serialised as: the name of its [`ExchangeId`].
    pub fn name() -> (r: &'static str)
        ensures
            r@ == ExchangeId::Deribit.name(),
    {
        ExchangeId::Deribit.as_str()
    }

    /// Deserialise [`Deribit`] from its name: exactly the name of its [`ExchangeId`].
    pub fn from_name(name: &str) -> (r: Option<Deribit>)
        ensures
            r is Some <==> accepts_name(ExchangeId::Deribit, name@),
    {
        if str_eq(name, ExchangeId::Deribit.as_str()) {
            Some(Deribit)
        } else {
            None
        }
    }
    /// The [`ExchangeId`] of [`Deribit`].
    pub const ID: ExchangeId = ExchangeId::Deribit;

    /// The server url of [`Deribit`].
    pub fn url() -> (r: Result<url::Url, SocketError>)
        ensures
            r is Ok <==> spec_url_parses(BASE_URL_DERIBIT@),
    {
        match parse_url(BASE_URL_DERIBIT) {
            Ok(u) => Ok(u),
            Err(e) => Err(SocketError::UrlParse(e)),
        }
    }

    /// The single "public/subscribe" request subscribing to every channel & market pair.
    pub fn requests(subs: Vec<ExchangeSub<DeribitChannel, DeribitMarket>>) -> (r: DeribitRequest<
        'static,
        DeribitSubParams,
    >)
        ensures
            r.method@ == "public/subscribe"@,
            r.params.channels@.len() == subs@.len(),
            forall|i: int|
                0 <= i < subs@.len() ==> (#[trigger] r.params.channels@[i])@
                    == deribit_request_channel(subs@[i].channel.0@, subs@[i].market.0@),
    {
        DeribitRequest::from_iter(subs)
    }
}

} // verus!
