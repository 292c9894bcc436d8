//! Building the market streams of several exchanges, and the retry policy of the loop
//! that consumes one exchange's stream.

use crate::error::SocketError;
use crate::exchange::ExchangeId;
use crate::model::Subscription;
use vstd::prelude::*;

verus! {

/// What the consumer loop does after an attempt to initialise its market stream.
#[derive(Clone, Copy, Debug, PartialEq, Eq, Structural)]
pub enum ConsumerAction {
    /// The stream is up: consume its events.
    Consume,
    /// Give up, returning the initialisation error.
    Exit,
    /// Try to initialise the stream again.
    Retry,
}

/// Retry state of the consumer loop of one exchange's market stream: the number of
/// attempts to initialise it since it last came up, and whether it ever came up.
#[derive(Clone, Copy, Debug, PartialEq, Eq, Structural)]
pub struct ConsumerRetry {
    pub attempt: u32,
    pub ever_up: bool,
}

/// The state after the consumer loop starts a new attempt from `state`: one more attempt.
pub open spec fn consumer_begin(state: ConsumerRetry) -> ConsumerRetry {
    ConsumerRetry { attempt: (state.attempt + 1) as u32, ever_up: state.ever_up }
}

/// The state and the action after an attempt that did (`initialised`) or did not bring
/// the stream up. A success resets the count, records that the stream came up, and
/// consumes. A failure of the very first attempt, before the stream ever came up, exits
/// with the error; any other failure retries.
pub open spec fn consumer_after(state: ConsumerRetry, initialised: bool) -> (ConsumerRetry, ConsumerAction) {
    if initialised {
        (ConsumerRetry { attempt: 0, ever_up: true }, ConsumerAction::Consume)
    } else if state.attempt == 1 && !state.ever_up {
        (state, ConsumerAction::Exit)
    } else {
        (state, ConsumerAction::Retry)
    }
}

impl ConsumerRetry {
    /// No attempt made yet; the stream has never come up.
    pub fn new() -> (r: ConsumerRetry)
        ensures
            r.attempt == 0,
            !r.ever_up,
    {
        ConsumerRetry { attempt: 0, ever_up: false }
    }

    /// Count a new attempt, at the start of every iteration of the loop.
    pub fn begin_attempt(&mut self)
        requires
            old(self).attempt < u32::MAX,
        ensures
            *final(self) == consumer_begin(*old(self)),
    {
        self.attempt = self.attempt + 1;
    }

    /// Decide what follows an attempt that did (`initialised`) or did not bring the
    /// stream up.
    pub fn after_init(&mut self, initialised: bool) -> (r: ConsumerAction)
        ensures
            (*final(self), r) == consumer_after(*old(self), initialised),
    {
        if initialised {
            self.attempt = 0;
            self.ever_up = true;
            ConsumerAction::Consume
        } else if self.attempt == 1 && !self.ever_up {
            ConsumerAction::Exit
        } else {
            ConsumerAction::Retry
        }
    }
}

/// The consumer loop gives up only when its very first attempt fails: starting afresh,
/// a failed first attempt exits, and once the stream has come up every later failure
/// retries (as does a failure after earlier failures).
pub proof fn lemma_consumer_exits_only_on_first_failure(state: ConsumerRetry)
    requires
        state.attempt < u32::MAX,
    ensures
        state == (ConsumerRetry { attempt: 0, ever_up: false }) ==> consumer_after(
            consumer_begin(state),
            false,
        ).1 == ConsumerAction::Exit,
        state.ever_up ==> consumer_after(consumer_begin(state), false).1 == ConsumerAction::Retry,
        state.attempt >= 1 ==> consumer_after(consumer_begin(state), false).1 == ConsumerAction::Retry,
        consumer_after(consumer_begin(state), true) == (
            ConsumerRetry { attempt: 0, ever_up: true },
            ConsumerAction::Consume,
        ),
{
}

/// The exchanges a [`StreamBuilder`] holds subscriptions for, in the order first
/// subscribed.
pub open spec fn builder_exchanges(entries: Seq<(ExchangeId, Vec<Subscription>)>) -> Seq<ExchangeId> {
    entries.map_values(|e: (ExchangeId, Vec<Subscription>)| e.0)
}

/// The only exchange whose market stream can be initialised.
pub open spec fn stream_supported(exchange: ExchangeId) -> bool {
    exchange == ExchangeId::BinanceFuturesUsd
}

/// The message of the error a [`StreamBuilder`] without subscriptions is answered with.
pub open spec fn empty_builder_text() -> Seq<char> {
    "builder contains to Subscription to action"@
}

/// Whether `r` is what initialising the streams of a builder holding `entries` answers:
/// without subscriptions, an error; where every exchange's stream can be initialised, the
/// exchanges in order; else the error naming the first exchange whose stream cannot.
pub open spec fn stream_init_answers(
    entries: Seq<(ExchangeId, Vec<Subscription>)>,
    r: Result<Vec<ExchangeId>, SocketError>,
) -> bool {
    &&& entries.len() == 0 ==> (r matches Err(SocketError::Subscribe(m)) && m@ == empty_builder_text())
    &&& (entries.len() > 0 && forall|k: int|
        0 <= k < entries.len() ==> stream_supported(#[trigger] entries[k].0)) ==> (r matches Ok(v)
        && v@ == builder_exchanges(entries))
    &&& entries.len() > 0 && (exists|k: int|
        0 <= k < entries.len() && !stream_supported(#[trigger] entries[k].0)) ==> exists|k: int|
        0 <= k < entries.len() && !stream_supported(entries[k].0) && (forall|j: int|
            0 <= j < k ==> stream_supported(#[trigger] entries[j].0)) && (r matches Err(
            SocketError::Subscribe(m),
        ) && m@ == entries[k].0.name())
}

/// Only Binance futures streams can be initialised: a builder whose exchanges are all
/// [`ExchangeId::BinanceFuturesUsd`] gets them back in order, and one holding any other
/// exchange (eg/ Okx) fails with the name of the first such exchange.
pub proof fn lemma_stream_init_only_binance_futures(
    entries: Seq<(ExchangeId, Vec<Subscription>)>,
    r: Result<Vec<ExchangeId>, SocketError>,
)
    requires
        stream_init_answers(entries, r),
    ensures
        (entries.len() > 0 && forall|k: int|
            0 <= k < entries.len() ==> #[trigger] entries[k].0 == ExchangeId::BinanceFuturesUsd) ==> (r matches Ok(
            v,
        ) && v@ == builder_exchanges(entries)),
        (exists|k: int| 0 <= k < entries.len() && #[trigger] entries[k].0 != ExchangeId::BinanceFuturesUsd)
            ==> exists|k: int|
            0 <= k < entries.len() && entries[k].0 != ExchangeId::BinanceFuturesUsd && (forall|j: int|
                0 <= j < k ==> #[trigger] entries[j].0 == ExchangeId::BinanceFuturesUsd) && (r matches Err(
                SocketError::Subscribe(m),
            ) && m@ == entries[k].0.name()),
{
    if exists|k: int| 0 <= k < entries.len() && #[trigger] entries[k].0 != ExchangeId::BinanceFuturesUsd {
        let k0 = choose|k: int| 0 <= k < entries.len() && #[trigger] entries[k].0 != ExchangeId::BinanceFuturesUsd;
        assert(!stream_supported(entries[k0].0));
    }
}

/// Builder of the market streams of several exchanges: the subscriptions to action per
/// exchange.
pub struct StreamBuilder {
    entries: Vec<(ExchangeId, Vec<Subscription>)>,
}

impl StreamBuilder {
    /// The subscriptions of each exchange, in the order the exchanges were first
    /// subscribed.
    pub closed spec fn view(&self) -> Seq<(ExchangeId, Vec<Subscription>)> {
        self.entries@
    }

    /// No exchange occurs twice.
    pub open spec fn wf(&self) -> bool {
        forall|i: int, j: int| 0 <= i < j < self@.len() ==> #[trigger] self@[i].0 != #[trigger] self@[j].0
    }

    /// A builder without subscriptions.
    pub fn new() -> (r: StreamBuilder)
        ensures
            r.wf(),
            r@ == Seq::<(ExchangeId, Vec<Subscription>)>::empty(),
    {
        StreamBuilder { entries: Vec::new() }
    }

    /// Action `subscriptions` on `exchange`, replacing those held for it before.
    pub fn subscribe(self, exchange: ExchangeId, subscriptions: Vec<Subscription>) -> (r: StreamBuilder)
        requires
            self.wf(),
        ensures
            r.wf(),
            (exists|k: int| 0 <= k < self@.len() && self@[k].0 == exchange) ==> (exists|k: int|
                0 <= k < self@.len() && self@[k].0 == exchange && r@ == self@.update(
                    k,
                    (exchange, subscriptions),
                )),
            (forall|k: int| 0 <= k < self@.len() ==> self@[k].0 != exchange) ==> r@ == self@.push(
                (exchange, subscriptions),
            ),
    {
        let mut entries = self.entries;
        let mut i: usize = 0;
        while i < entries.len()
            invariant
                i <= entries@.len(),
                entries@ == self@,
                self.wf(),
                forall|k: int| 0 <= k < i ==> entries@[k].0 != exchange,
            decreases entries@.len() - i,
        {
            if entries[i].0 == exchange {
                entries.set(i, (exchange, subscriptions));
                let r = StreamBuilder { entries };
                proof {
                    assert forall|a: int, b: int| 0 <= a < b < r@.len() implies #[trigger] r@[a].0
                        != #[trigger] r@[b].0 by {
                        assert(r@[a].0 == self@[a].0);
                        assert(r@[b].0 == self@[b].0);
                    }
                }
                return r;
            }
            i = i + 1;
        }
        entries.push((exchange, subscriptions));
        StreamBuilder { entries }
    }

    /// The exchanges whose market streams are to be initialised, in order. Fails where
    /// the builder holds no subscription, or with the name of the first exchange whose
    /// stream cannot be initialised.
    pub fn init(&self) -> (r: Result<Vec<ExchangeId>, SocketError>)
        ensures
            self@.len() == 0 ==> (r matches Err(SocketError::Subscribe(m)) && m@ == empty_builder_text()),
            (self@.len() > 0 && forall|k: int|
                0 <= k < self@.len() ==> stream_supported(#[trigger] self@[k].0)) ==> (r matches Ok(
                v,
            ) && v@ == builder_exchanges(self@)),
            self@.len() > 0 && (exists|k: int|
                0 <= k < self@.len() && !stream_supported(#[trigger] self@[k].0)) ==> exists|k: int|
                0 <= k < self@.len() && !stream_supported(self@[k].0) && (forall|j: int|
                    0 <= j < k ==> stream_supported(#[trigger] self@[j].0)) && (r matches Err(
                    SocketError::Subscribe(m),
                ) && m@ == self@[k].0.name()),
            stream_init_answers(self@, r),
    {
        if self.entries.len() == 0 {
            return Err(SocketError::Subscribe(String::from_str("builder contains to Subscription to action")));
        }
        let mut out: Vec<ExchangeId> = Vec::new();
        let mut i: usize = 0;
        while i < self.entries.len()
            invariant
                i <= self@.len(),
                out@ == builder_exchanges(self@.take(i as int)),
                forall|j: int| 0 <= j < i ==> stream_supported(#[trigger] self@[j].0),
            decreases self@.len() - i,
        {
            let exchange = self.entries[i].0;
            if exchange != ExchangeId::BinanceFuturesUsd {
                return Err(SocketError::Subscribe(String::from_str(exchange.as_str())));
            }
            out.push(exchange);
            proof {
                assert(self@.take(i + 1) =~= self@.take(i as int).push(self@[i as int]));
            }
            i = i + 1;
        }
        proof {
            assert(self@.take(self@.len() as int) =~= self@);
        }
        Ok(out)
    }
}

} // verus!
