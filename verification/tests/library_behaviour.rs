use barter_data::error::{DataError, SocketError};
use barter_data::exchange::coinbase::{Coinbase, CoinbaseMarket};
use barter_data::exchange::deribit::{Deribit, DeribitChannel, DeribitMarket, DeribitResponse};
use barter_data::exchange::ftx::Ftx;
use barter_data::exchange::kraken::Kraken;
use barter_data::exchange::kraken_futures::{
    KrakenFuturesUsd, KrakenFuturesUsdSubResponse, KrakenFuturesUsdSubscription,
};
use barter_data::exchange::kucoin::{kucoin_side, kucoin_time_ms, Kucoin, KucoinSubResponse};
use barter_data::exchange::okx::book::{
    okx_checksum, OkxBookOutcome, OkxBookStep, OkxFuturesBookUpdater, OkxFuturesOrderBookDelta,
    OkxOrderBookAction, OkxOrderBookData,
};
use barter_data::exchange::poloniex::{
    poloniex_message_id, Poloniex, PoloniexChannel, PoloniexMarket, PoloniexSubResponse,
};
use barter_data::exchange::subscription_ids::SubscriptionIds;
use barter_data::exchange::{ExchangeId, ExchangeSub};
use barter_data::model::{Instrument, InstrumentKind, Side, SnapshotDepth, SubKind, Subscription, SubscriptionId};
use barter_data::stream::{ConsumerAction, ConsumerRetry, StreamBuilder};
use barter_data::text::{parse_u64, u64_to_decimal};

fn subscription(base: &str, quote: &str, kind: InstrumentKind, sub_kind: SubKind) -> Subscription {
    Subscription::new(Instrument::new(base, quote, kind), sub_kind)
}

fn item(prev_seq_id: i64, seq_id: i64) -> OkxOrderBookData<u32, u64> {
    OkxOrderBookData { time: 0, asks: vec![], bids: vec![], checksum: 0, prev_seq_id, seq_id }
}

fn delta(action: OkxOrderBookAction, data: Vec<OkxOrderBookData<u32, u64>>) -> OkxFuturesOrderBookDelta<u32, u64> {
    OkxFuturesOrderBookDelta { subscription_id: SubscriptionId::from_str("books|BTC-USDT-SWAP"), action, data }
}

#[test]
fn okx_updater_snapshot_then_chain_is_accepted() {
    let mut updater = OkxFuturesBookUpdater::new();
    assert_eq!(updater.prev_seq_id, 0);

    let plan = updater.update(&delta(OkxOrderBookAction::SNAPSHOT, vec![item(-1, 100)]));
    assert_eq!(plan.steps, vec![OkxBookStep::Replace]);
    assert_eq!(plan.outcome, OkxBookOutcome::Snapshot);
    assert_eq!(updater.prev_seq_id, 100);

    let plan = updater.update(&delta(OkxOrderBookAction::UPDATE, vec![item(100, 101), item(101, 105)]));
    assert_eq!(plan.steps, vec![OkxBookStep::UpsertSorted, OkxBookStep::UpsertSorted]);
    assert_eq!(plan.outcome, OkxBookOutcome::Snapshot);
    assert_eq!(updater.prev_seq_id, 105);
}

#[test]
fn okx_updater_gap_is_rejected_and_keeps_sequence() {
    let mut updater = OkxFuturesBookUpdater { prev_seq_id: 100 };
    let plan = updater.update(&delta(OkxOrderBookAction::UPDATE, vec![item(99, 101), item(101, 102)]));
    assert_eq!(plan.steps, vec![OkxBookStep::Upsert]);
    assert_eq!(
        plan.outcome,
        OkxBookOutcome::Failed(DataError::InvalidSequence { prev_last_update_id: 100, first_update_id: 101 })
    );
    assert_eq!(updater.prev_seq_id, 100);
}

#[test]
fn okx_updater_gap_after_first_item_keeps_first_item() {
    let mut updater = OkxFuturesBookUpdater { prev_seq_id: 7 };
    let plan = updater.update(&delta(OkxOrderBookAction::UPDATE, vec![item(7, 8), item(9, 10)]));
    assert_eq!(plan.steps, vec![OkxBookStep::UpsertSorted, OkxBookStep::Upsert]);
    assert_eq!(
        plan.outcome,
        OkxBookOutcome::Failed(DataError::InvalidSequence { prev_last_update_id: 8, first_update_id: 10 })
    );
    assert_eq!(updater.prev_seq_id, 8);
}

#[test]
fn okx_updater_negative_ids_wrap_as_u64() {
    let mut updater = OkxFuturesBookUpdater { prev_seq_id: -1 };
    let plan = updater.update(&delta(OkxOrderBookAction::UPDATE, vec![item(3, -2)]));
    assert_eq!(
        plan.outcome,
        OkxBookOutcome::Failed(DataError::InvalidSequence {
            prev_last_update_id: u64::MAX,
            first_update_id: u64::MAX - 1,
        })
    );
}

#[test]
fn okx_updater_heartbeat_yields_nothing() {
    let mut updater = OkxFuturesBookUpdater { prev_seq_id: 42 };
    let plan = updater.update(&delta(OkxOrderBookAction::UPDATE, vec![item(42, 42)]));
    assert_eq!(plan.steps, vec![OkxBookStep::Upsert]);
    assert_eq!(plan.outcome, OkxBookOutcome::Unchanged);
    assert_eq!(updater.prev_seq_id, 42);
}

#[test]
fn okx_updater_empty_message_yields_snapshot() {
    let mut updater = OkxFuturesBookUpdater { prev_seq_id: 5 };
    let plan = updater.update(&delta(OkxOrderBookAction::UPDATE, vec![]));
    assert!(plan.steps.is_empty());
    assert_eq!(plan.outcome, OkxBookOutcome::Snapshot);
    assert_eq!(updater.prev_seq_id, 5);
}

#[test]
fn okx_checksum_is_signed_crc32() {
    // CRC-32 (IEEE) of "123456789" is 0xCBF43926.
    assert_eq!(okx_checksum("123456789"), 0xCBF43926u32 as i32);
    assert_eq!(okx_checksum(""), 0);
}

#[test]
fn consumer_retry_exits_on_first_failure() {
    let mut retry = ConsumerRetry::new();
    retry.begin_attempt();
    assert_eq!(retry.after_init(false), ConsumerAction::Exit);
    assert_eq!(retry.attempt, 1);
    assert!(!retry.ever_up);
}

#[test]
fn consumer_retry_retries_after_the_stream_came_up() {
    let mut retry = ConsumerRetry::new();
    retry.begin_attempt();
    assert_eq!(retry.after_init(true), ConsumerAction::Consume);
    assert_eq!(retry.attempt, 0);
    assert!(retry.ever_up);
    // The stream ends; the next initialisation fails and is retried.
    retry.begin_attempt();
    assert_eq!(retry.after_init(false), ConsumerAction::Retry);
    assert_eq!(retry.attempt, 1);
    retry.begin_attempt();
    assert_eq!(retry.after_init(false), ConsumerAction::Retry);
    assert_eq!(retry.attempt, 2);
    retry.begin_attempt();
    assert_eq!(retry.after_init(true), ConsumerAction::Consume);
    assert_eq!(retry.attempt, 0);

    let mut retry = ConsumerRetry { attempt: 2, ever_up: false };
    assert_eq!(retry.after_init(false), ConsumerAction::Retry);
    assert_eq!(retry.attempt, 2);
}

#[test]
fn stream_builder_init() {
    let builder = StreamBuilder::new();
    match builder.init() {
        Err(SocketError::Subscribe(m)) => assert_eq!(m, "builder contains to Subscription to action"),
        other => panic!("{other:?}"),
    }

    let sub = subscription("btc", "usdt", InstrumentKind::Perpetual, SubKind::Trade);
    let builder = StreamBuilder::new().subscribe(ExchangeId::BinanceFuturesUsd, vec![sub.duplicate()]);
    assert_eq!(builder.init().unwrap(), vec![ExchangeId::BinanceFuturesUsd]);

    let builder = builder
        .subscribe(ExchangeId::Kraken, vec![sub.duplicate()])
        .subscribe(ExchangeId::BinanceFuturesUsd, vec![]);
    match builder.init() {
        Err(SocketError::Subscribe(m)) => assert_eq!(m, "kraken"),
        other => panic!("{other:?}"),
    }
}

#[test]
fn subscription_ids_find_what_was_inserted() {
    let mut ids = SubscriptionIds::new();
    ids.insert(
        SubscriptionId::from_str("trade|XBT/USD"),
        subscription("xbt", "usd", InstrumentKind::Spot, SubKind::Trade),
    );
    ids.insert(
        SubscriptionId::from_str("trade|XBT/USD"),
        subscription("xbt", "eur", InstrumentKind::Spot, SubKind::Trade),
    );
    assert_eq!(ids.len(), 1);
    let found = ids.find_instrument(&SubscriptionId::from_str("trade|XBT/USD")).unwrap();
    assert_eq!(found.quote, "eur");
    match ids.find_instrument(&SubscriptionId::from_str("unknown")) {
        Err(SocketError::Unidentifiable(id)) => assert_eq!(id.0, "unknown"),
        other => panic!("{other:?}"),
    }
}

#[test]
fn kucoin_subscription_meta() {
    let subs = vec![
        subscription("btc", "usdt", InstrumentKind::Spot, SubKind::Trade),
        subscription("eth", "usdt", InstrumentKind::Spot, SubKind::L2OrderBookSnapshot(SnapshotDepth::Depth5)),
        subscription("eth", "usdt", InstrumentKind::Spot, SubKind::L2OrderBookSnapshot(SnapshotDepth::Depth50)),
    ];
    let meta = Kucoin::build_subscription_meta(&subs).unwrap();
    assert_eq!(meta.expected_responses, 3);
    let topics: Vec<&str> = meta.subscriptions.iter().map(|r| r.topic.as_str()).collect();
    assert_eq!(
        topics,
        vec!["/market/match:BTC-USDT", "/spotMarket/level2Depth5:ETH-USDT", "/spotMarket/level2Depth50:ETH-USDT"]
    );
    for request in &meta.subscriptions {
        assert_eq!(request.kind, "subscribe");
        assert!(!request.private_channel);
        assert!(request.response);
    }
    let kucoin = Kucoin::new(meta.ids);
    let found = kucoin.find_instrument(&Kucoin::subscription_id("/market/match:BTC-USDT")).unwrap();
    assert_eq!(found.base, "btc");

    let bad = vec![
        subscription("btc", "usdt", InstrumentKind::Spot, SubKind::Trade),
        subscription("btc", "usdt", InstrumentKind::Spot, SubKind::OrderBookL2),
    ];
    match Kucoin::build_subscription_meta(&bad) {
        Err(SocketError::Unsupported { entity, item }) => {
            assert_eq!(entity, "kucoin");
            assert_eq!(item, "order_books_l2");
        }
        Ok(_) => panic!("expected an error"),
        Err(other) => panic!("{other:?}"),
    }
}

#[test]
fn kucoin_messages() {
    let request = Kucoin::subscription_message_with_id(7, "/market/match:BTC-USDT");
    assert_eq!(request.id, 7);
    assert_eq!(request.topic, "/market/match:BTC-USDT");
    assert_eq!(
        Kucoin::connection_url_with_id("wss://ws-api.kucoin.com/endpoint", "abc", 513),
        "wss://ws-api.kucoin.com/endpoint?token=abc&[connectId=513]"
    );
    let url = Kucoin::connection_url("wss://e", "t");
    assert!(url.starts_with("wss://e?token=t&[connectId=") && url.ends_with(']'));
    assert!(KucoinSubResponse::Subscribed.validate().is_ok());
    match KucoinSubResponse::Error.validate() {
        Err(SocketError::Subscribe(m)) => assert_eq!(m, "Received failure subscription response from Kucoin"),
        other => panic!("{other:?}"),
    }
    assert_eq!(kucoin_side("buy"), Side::Buy);
    assert_eq!(kucoin_side("sell"), Side::Sell);
    assert_eq!(kucoin_side("BUY"), Side::Sell);
    assert_eq!(kucoin_time_ms("1665515633638000000"), Some(1665515633638));
    assert_eq!(kucoin_time_ms("12a"), None);
    assert_eq!(Kucoin::base_url(), "https://api.kucoin.com");
}

#[test]
fn parse_u64_follows_str_parse() {
    for text in ["0", "42", "+7", "18446744073709551615", "18446744073709551616", "", "+", "-1", "1 ", "0012"] {
        assert_eq!(parse_u64(text), text.parse::<u64>().ok(), "{text:?}");
    }
    assert_eq!(u64_to_decimal(0), "0");
    assert_eq!(u64_to_decimal(1234567890), "1234567890");
}

#[test]
fn kraken_futures_subscription_meta() {
    let subs = vec![
        subscription("xbt", "usd", InstrumentKind::Perpetual, SubKind::Trade),
        subscription("eth", "usd", InstrumentKind::Perpetual, SubKind::Trade),
    ];
    let meta = KrakenFuturesUsd::build_subscription_meta(&subs).unwrap();
    assert_eq!(meta.expected_responses, 2);
    let pairs: Vec<&str> = meta.subscriptions.iter().map(|s| s.pair.as_str()).collect();
    assert_eq!(pairs, vec!["PI_XBTUSD", "PI_ETHUSD"]);
    let exchange = KrakenFuturesUsd::new(meta.ids);
    assert_eq!(exchange.find_instrument(&SubscriptionId::from_str("PI_ETHUSD")).unwrap().base, "eth");
    assert!(exchange.find_instrument(&SubscriptionId::from_str("PI_SOLUSD")).is_err());

    let bad = vec![subscription("xbt", "usd", InstrumentKind::Perpetual, SubKind::OrderBookL2)];
    match KrakenFuturesUsd::build_subscription_meta(&bad) {
        Err(SocketError::Unsupported { entity, item }) => {
            assert_eq!(entity, "kraken_futures_usd");
            assert_eq!(item, "order_books_l2");
        }
        Ok(_) => panic!("expected an error"),
        Err(other) => panic!("{other:?}"),
    }

    let message = KrakenFuturesUsdSubscription::new("PI_XBTUSD".to_string(), KrakenFuturesUsd::subscription(&subs[0]).unwrap().kind);
    assert_eq!(message.subscription_id().0, "PI_XBTUSD");
    match (KrakenFuturesUsdSubResponse::Error { message: "Bad request".to_string() }).validate() {
        Err(SocketError::Subscribe(m)) => assert_eq!(m, "received failure subscription response: Bad request"),
        other => panic!("{other:?}"),
    }
    assert_eq!(KrakenFuturesUsd::base_url(), "wss://futures.kraken.com/ws/v1");
}

#[test]
fn poloniex_requests_and_responses() {
    let sub = subscription("btc", "usdt", InstrumentKind::Spot, SubKind::Trade);
    let market = PoloniexMarket::for_instrument(&sub.instrument);
    assert_eq!(market.0, "BTC_USDT");
    let channel = PoloniexChannel::for_kind(&sub.kind).unwrap();
    let requests = Poloniex::requests(vec![ExchangeSub::from_pair(channel, market)]);
    assert_eq!(requests.len(), 1);
    assert_eq!(requests[0].event, "subscribe");
    assert_eq!(requests[0].channel, vec!["trades".to_string()]);
    assert_eq!(requests[0].symbols, vec!["BTC_USDT".to_string()]);
    assert!(PoloniexChannel::for_kind(&SubKind::OrderBookL2).is_err());

    assert!(PoloniexSubResponse::Subscribed.validate().is_ok());
    match (PoloniexSubResponse::Error { message: "Subscription failed (generic)".to_string() }).validate() {
        Err(SocketError::Subscribe(m)) => {
            assert_eq!(m, "received failure subscription with message: Subscription failed (generic)")
        }
        other => panic!("{other:?}"),
    }
    assert_eq!(poloniex_message_id("trades", Some("BTC_USDT")).unwrap().0, "trades|BTC_USDT");
    assert!(poloniex_message_id("trades", None).is_none());
}

#[test]
fn exchange_names_round_trip() {
    assert!(Coinbase::from_name(Coinbase::name()).is_some());
    assert!(Coinbase::from_name("Coinbase").is_some());
    assert!(Coinbase::from_name("okx").is_none());
    assert!(Kraken::from_name(Kraken::name()).is_some());
    assert!(Kraken::from_name("Kraken").is_none());
    assert!(Deribit::from_name("deribit").is_some());
    assert!(Poloniex::from_name("poloniex").is_some());
    assert!(Poloniex::from_name("coinbase").is_none());
    assert_eq!(ExchangeId::KrakenFuturesUsd.as_str(), "kraken_futures_usd");
}

#[test]
fn coinbase_market_is_uppercased() {
    let instrument = Instrument::new("eth", "usd", InstrumentKind::Spot);
    assert_eq!(CoinbaseMarket::for_instrument(&instrument).0, "ETH-USD");
    assert_eq!(Coinbase::trade_subscription_id("ETH-USD").0, "matches|ETH-USD");
}

#[test]
fn deribit_request_and_response() {
    let request = Deribit::requests(vec![ExchangeSub::from_pair(
        DeribitChannel::trades(),
        DeribitMarket("BTC-24MAY24".to_string()),
    )]);
    assert_eq!(request.params.channels, vec!["trades.BTC-24MAY24.raw".to_string()]);
    let id = barter_data::exchange::deribit::parse_deribit_channel_field_as_subscription_id(
        &request.params.channels[0],
    )
    .unwrap();
    assert_eq!(id.0, "trades|BTC-24MAY24");
    match (DeribitResponse { id: 3, result: Vec::<String>::new() }).validate() {
        Err(SocketError::Subscribe(m)) => {
            assert_eq!(m, "received failure subscription response: DeribitResponse { id: 3, result: [] }")
        }
        other => panic!("{other:?}"),
    }
    assert!(barter_data::exchange::deribit::parse_deribit_channel_field_as_subscription_id("trades").is_err());
}

#[test]
fn ftx_trades_find_their_subscription() {
    let subs = vec![
        subscription("btc", "usdt", InstrumentKind::Spot, SubKind::Trade),
        subscription("eth", "usd", InstrumentKind::Perpetual, SubKind::Trade),
    ];
    let meta = Ftx::build_subscription_meta(&subs).unwrap();
    assert_eq!(meta.expected_responses, 2);
    assert_eq!(meta.subscriptions[1].market, "ETH-PERP");
    let ftx = Ftx::new(meta.ids);
    let found = ftx.find_instrument(&Ftx::trade_subscription_id("BTC/USDT")).unwrap();
    assert_eq!(found.base, "btc");
    let found = ftx.find_instrument(&Ftx::trade_subscription_id("ETH-PERP")).unwrap();
    assert_eq!(found.base, "eth");
    assert!(ftx.find_instrument(&Ftx::trade_subscription_id("SOL/USD")).is_err());
}
