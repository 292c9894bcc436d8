//! The exchange-independent data model: subscription identifiers, instruments,
//! subscription kinds and intervals.

use vstd::prelude::*;

verus! {

/// Identifier that associates a message received from an exchange with the
/// subscription that requested it, eg/ `"trades|BTC-USDT"`.
#[derive(Clone, Debug)]
pub struct SubscriptionId(pub String);

impl SubscriptionId {
    pub open spec fn text(&self) -> Seq<char> {
        self.0@
    }

    /// Build a [`SubscriptionId`] from its text.
    pub fn from_str(s: &str) -> (r: SubscriptionId)
        ensures
            r.text() == s@,
    {
        SubscriptionId(String::from_str(s))
    }

    /// A copy of this identifier.
    pub fn duplicate(&self) -> (r: SubscriptionId)
        ensures
            r == *self,
    {
        SubscriptionId(self.0.clone())
    }

    /// The text of this identifier.
    pub fn as_str(&self) -> (r: &str)
        ensures
            r@ == self.text(),
    {
        self.0.as_str()
    }
}

/// Side of a trade or order.
#[derive(Clone, Copy, Debug, PartialEq, Eq, Structural)]
pub enum Side {
    Buy,
    Sell,
}

/// Put or call.
#[derive(Clone, Copy, Debug, PartialEq, Eq, Structural)]
pub enum OptionKind {
    Call,
    Put,
}

/// Exercise style of an option contract.
#[derive(Clone, Copy, Debug, PartialEq, Eq, Structural)]
pub enum OptionExercise {
    American,
    Bermudan,
    European,
}

/// Contract details of an option: `expiry_ms` is the expiry as milliseconds since the
/// UNIX epoch and `strike` the decimal text of the strike price (eg/ `"58000"`).
#[derive(Clone, Debug)]
pub struct OptionContract {
    pub kind: OptionKind,
    pub exercise: OptionExercise,
    pub expiry_ms: i64,
    pub strike: String,
}

/// Kind of instrument.
#[derive(Clone, Debug)]
pub enum InstrumentKind {
    Spot,
    /// Dated future expiring at `expiry_ms` (milliseconds since the UNIX epoch).
    Future { expiry_ms: i64 },
    Perpetual,
    Option(OptionContract),
}

/// Instrument: base & quote symbols (lowercase, eg/ `"btc"`, `"usdt"`) and its kind.
#[derive(Clone, Debug)]
pub struct Instrument {
    pub base: String,
    pub quote: String,
    pub kind: InstrumentKind,
}

impl OptionContract {
    /// A copy of this contract.
    pub fn duplicate(&self) -> (r: OptionContract)
        ensures
            r == *self,
    {
        OptionContract {
            kind: self.kind,
            exercise: self.exercise,
            expiry_ms: self.expiry_ms,
            strike: self.strike.clone(),
        }
    }
}

impl InstrumentKind {
    /// A copy of this kind.
    pub fn duplicate(&self) -> (r: InstrumentKind)
        ensures
            r == *self,
    {
        match self {
            InstrumentKind::Spot => InstrumentKind::Spot,
            InstrumentKind::Future { expiry_ms } => InstrumentKind::Future { expiry_ms: *expiry_ms },
            InstrumentKind::Perpetual => InstrumentKind::Perpetual,
            InstrumentKind::Option(contract) => InstrumentKind::Option(contract.duplicate()),
        }
    }
}

impl Instrument {
    /// A copy of this instrument.
    pub fn duplicate(&self) -> (r: Instrument)
        ensures
            r == *self,
    {
        Instrument {
            base: self.base.clone(),
            quote: self.quote.clone(),
            kind: self.kind.duplicate(),
        }
    }

    /// Construct an [`Instrument`].
    pub fn new(base: &str, quote: &str, kind: InstrumentKind) -> (r: Instrument)
        ensures
            r.base@ == base@,
            r.quote@ == quote@,
            r.kind == kind,
    {
        Instrument { base: String::from_str(base), quote: String::from_str(quote), kind }
    }
}

/// Time interval of a candle.
#[derive(Clone, Copy, Debug, PartialEq, Eq, Structural)]
pub enum Interval {
    Minute1,
    Minute3,
    Minute5,
    Minute15,
    Minute30,
    Hour1,
    Hour2,
    Hour4,
    Hour6,
    Hour8,
    Hour12,
    Day1,
    Day3,
    Week1,
    Month1,
    Month3,
}

impl Interval {
    /// The short name of this interval, eg/ `"5m"`, `"6h"`, `"3M"`.
    pub open spec fn name(self) -> Seq<char> {
        match self {
            Interval::Minute1 => "1m"@,
            Interval::Minute3 => "3m"@,
            Interval::Minute5 => "5m"@,
            Interval::Minute15 => "15m"@,
            Interval::Minute30 => "30m"@,
            Interval::Hour1 => "1h"@,
            Interval::Hour2 => "2h"@,
            Interval::Hour4 => "4h"@,
            Interval::Hour6 => "6h"@,
            Interval::Hour8 => "8h"@,
            Interval::Hour12 => "12h"@,
            Interval::Day1 => "1d"@,
            Interval::Day3 => "3d"@,
            Interval::Week1 => "1w"@,
            Interval::Month1 => "1M"@,
            Interval::Month3 => "3M"@,
        }
    }

    /// The length of this interval in minutes; months have no fixed length.
    pub open spec fn minutes(self) -> Option<nat> {
        match self {
            Interval::Minute1 => Some(1),
            Interval::Minute3 => Some(3),
            Interval::Minute5 => Some(5),
            Interval::Minute15 => Some(15),
            Interval::Minute30 => Some(30),
            Interval::Hour1 => Some(60),
            Interval::Hour2 => Some(120),
            Interval::Hour4 => Some(240),
            Interval::Hour6 => Some(360),
            Interval::Hour8 => Some(480),
            Interval::Hour12 => Some(720),
            Interval::Day1 => Some(1440),
            Interval::Day3 => Some(4320),
            Interval::Week1 => Some(10080),
            Interval::Month1 => None,
            Interval::Month3 => None,
        }
    }

    /// The short name of this interval (its `Display` text).
    pub fn as_str(&self) -> (r: &'static str)
        ensures
            r@ == self.name(),
    {
        match self {
            Interval::Minute1 => "1m",
            Interval::Minute3 => "3m",
            Interval::Minute5 => "5m",
            Interval::Minute15 => "15m",
            Interval::Minute30 => "30m",
            Interval::Hour1 => "1h",
            Interval::Hour2 => "2h",
            Interval::Hour4 => "4h",
            Interval::Hour6 => "6h",
            Interval::Hour8 => "8h",
            Interval::Hour12 => "12h",
            Interval::Day1 => "1d",
            Interval::Day3 => "3d",
            Interval::Week1 => "1w",
            Interval::Month1 => "1M",
            Interval::Month3 => "3M",
        }
    }
}

/// Depth of a level 2 order book snapshot.
#[derive(Clone, Copy, Debug, PartialEq, Eq, Structural)]
pub enum SnapshotDepth {
    Depth5,
    Depth50,
}

/// Kind of market data a subscription asks for.
#[derive(Clone, Copy, Debug, PartialEq, Eq, Structural)]
pub enum SubKind {
    Trade,
    Candle(Interval),
    OrderBookL2,
    L2OrderBookSnapshot(SnapshotDepth),
}

impl SubKind {
    /// The name of this kind (its `Display` text), eg/ `"trade"`, `"candle_5m"`,
    /// `"order_books_l2"`.
    pub open spec fn name(self) -> Seq<char> {
        match self {
            SubKind::Trade => "trade"@,
            SubKind::Candle(interval) => "candle_"@ + interval.name(),
            SubKind::OrderBookL2 => "order_books_l2"@,
            SubKind::L2OrderBookSnapshot(SnapshotDepth::Depth5) => "l2_order_book_snapshot_5"@,
            SubKind::L2OrderBookSnapshot(SnapshotDepth::Depth50) => "l2_order_book_snapshot_50"@,
        }
    }

    /// The name of this kind.
    pub fn to_text(&self) -> (r: String)
        ensures
            r@ == self.name(),
    {
        match self {
            SubKind::Trade => String::from_str("trade"),
            SubKind::Candle(interval) => {
                let s = String::from_str("candle_");
                s.concat(interval.as_str())
            },
            SubKind::OrderBookL2 => String::from_str("order_books_l2"),
            SubKind::L2OrderBookSnapshot(SnapshotDepth::Depth5) => String::from_str(
                "l2_order_book_snapshot_5",
            ),
            SubKind::L2OrderBookSnapshot(SnapshotDepth::Depth50) => String::from_str(
                "l2_order_book_snapshot_50",
            ),
        }
    }
}

/// A request for one kind of market data of one instrument.
#[derive(Clone, Debug)]
pub struct Subscription {
    pub instrument: Instrument,
    pub kind: SubKind,
}

impl Subscription {
    /// A copy of this subscription.
    pub fn duplicate(&self) -> (r: Subscription)
        ensures
            r == *self,
    {
        Subscription { instrument: self.instrument.duplicate(), kind: self.kind }
    }

    /// Construct a [`Subscription`].
    pub fn new(instrument: Instrument, kind: SubKind) -> (r: Subscription)
        ensures
            r.instrument == instrument,
            r.kind == kind,
    {
        Subscription { instrument, kind }
    }
}

} // verus!
