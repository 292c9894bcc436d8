use barter_data::error::SocketError;
use barter_data::exchange::coinbase::{CoinbaseChannels, CoinbaseSubResponse};
use barter_data::exchange::deribit::parse_deribit_channel_field_as_subscription_id;
use barter_data::exchange::ftx::{Ftx, FtxSubResponse};
use barter_data::exchange::kraken::{KrakenError, KrakenInterval, KrakenSubKind, KrakenSubResponse};
use barter_data::exchange::kraken_futures::{KrakenFuturesUsd, KrakenFuturesUsdSubKind};
use barter_data::exchange::kucoin::Kucoin;
use barter_data::exchange::okx::{Okx, OkxSubResponse};
use barter_data::model::{Instrument, InstrumentKind, Interval, SubKind, Subscription};

fn subscription(base: &str, quote: &str, kind: InstrumentKind, sub_kind: SubKind) -> Subscription {
    Subscription::new(Instrument::new(base, quote, kind), sub_kind)
}

#[test]
fn subscription_test_validate_coinbase_subscription_response() {
    struct TestCase {
        input_response: CoinbaseSubResponse,
        is_valid: bool,
    }

    let cases = vec![
        TestCase {
            // TC0: input response is Subscribed
            input_response: CoinbaseSubResponse::Subscribed {
                channels: vec![CoinbaseChannels {
                    channel: "".to_owned(),
                    product_ids: vec!["".to_owned()],
                }],
            },
            is_valid: true,
        },
        TestCase {
            // TC1: input response is Error
            input_response: CoinbaseSubResponse::Error {
                reason: "error message".to_owned(),
            },
            is_valid: false,
        },
    ];

    for (index, test) in cases.into_iter().enumerate() {
        let actual = test.input_response.validate().is_ok();
        assert_eq!(actual, test.is_valid, "TestCase {} failed", index);
    }
}

#[test]
fn model_test_validate_coinbase_subscription_response() {
    struct TestCase {
        input_response: CoinbaseSubResponse,
        is_valid: bool,
    }

    let cases = vec![
        TestCase {
            // TC0: input response is Subscribed
            input_response: CoinbaseSubResponse::Subscribed {
                channels: vec![CoinbaseChannels {
                    channel: "".to_owned(),
                    product_ids: vec!["".to_owned()],
                }],
            },
            is_valid: true,
        },
        TestCase {
            // TC1: input response is Error
            input_response: CoinbaseSubResponse::Error {
                reason: "error message".to_owned(),
            },
            is_valid: false,
        },
    ];

    for (index, test) in cases.into_iter().enumerate() {
        let actual = test.input_response.validate().is_ok();
        assert_eq!(actual, test.is_valid, "TestCase {} failed", index);
    }
}

#[test]
fn test_validate_coinbase_subscription_response() {
    struct TestCase {
        input_response: OkxSubResponse,
        is_valid: bool,
    }

    let cases = vec![
        TestCase {
            // TC0: input response is subscription success
            input_response: OkxSubResponse::Subscribed,
            is_valid: true,
        },
        TestCase {
            // TC1: input response is failed subscription
            input_response: OkxSubResponse::Error {
                code: "60012".to_string(),
                message: "Invalid request: {\"op\": \"subscribe\", \"args\":[{ \"channel\" : \"trades\", \"instId\" : \"BTC-USD-191227\"}]}".to_string(),
            },
            is_valid: false,
        },
    ];

    for (index, test) in cases.into_iter().enumerate() {
        let actual = test.input_response.validate().is_ok();
        assert_eq!(actual, test.is_valid, "TestCase {} failed", index);
    }
}

#[test]
fn test_parse_deribit_channel_field_as_subscription_id() {
    let valid_spot_channel = "trades.BTC_USDT";
    let actual = parse_deribit_channel_field_as_subscription_id(valid_spot_channel).unwrap();
    assert_eq!(actual.0, "trades|BTC_USDT".to_string());

    let valid_future_channel = "quote.BTC-24MAY24";
    let actual = parse_deribit_channel_field_as_subscription_id(valid_future_channel).unwrap();
    assert_eq!(actual.0, "quote|BTC-24MAY24".to_string());

    let valid_perpetual_channel = "trades.AVAX_USDC-PERPETUAL";
    let actual = parse_deribit_channel_field_as_subscription_id(valid_perpetual_channel).unwrap();
    assert_eq!(actual.0, "trades|AVAX_USDC-PERPETUAL".to_string());

    let valid_option_channel = "quote.BTC-24MAY24-58000-P";
    let actual = parse_deribit_channel_field_as_subscription_id(valid_option_channel).unwrap();
    assert_eq!(actual.0, "quote|BTC-24MAY24-58000-P".to_string());
}

#[test]
fn mod_test_build_channel_meta() {
    struct TestCase {
        input: Subscription,
        expected: Result<(&'static str, String), ()>,
    }

    let cases = vec![
        TestCase {
            // TC0: Supported spot trades subscription
            input: subscription("btc", "usdt", InstrumentKind::Spot, SubKind::Trade),
            expected: Ok(("trades", "BTC/USDT".to_owned())),
        },
        TestCase {
            // TC1: Supported perpetual future trades subscription
            input: subscription("btc", "usdt", InstrumentKind::Perpetual, SubKind::Trade),
            expected: Ok(("trades", "BTC-PERP".to_owned())),
        },
        TestCase {
            // TC2: Unsupported perpetual future candle subscription
            input: subscription(
                "btc",
                "usdt",
                InstrumentKind::Perpetual,
                SubKind::Candle(Interval::Minute5),
            ),
            expected: Err(()),
        },
    ];

    for (index, test) in cases.into_iter().enumerate() {
        let actual = Ftx::build_channel_meta(&test.input);
        match (actual, test.expected) {
            (Ok(actual), Ok(expected)) => {
                assert_eq!(actual, expected, "TC{} failed", index)
            }
            (Err(_), Err(_)) => {
                // Test passed
            }
            (actual, expected) => {
                panic!("TC{index} failed because actual != expected. \nActual: {actual:?}\nExpected: {expected:?}\n");
            }
        }
    }
}

#[test]
fn test_validate_ftx_subscription_response() {
    struct TestCase {
        input_response: FtxSubResponse,
        is_valid: bool,
    }

    let cases = vec![
        TestCase {
            // TC0: input response is Subscribed
            input_response: FtxSubResponse::Subscribed {
                channel: "".to_owned(),
                market: "".to_owned(),
            },
            is_valid: true,
        },
        TestCase {
            // TC1: input response is Error
            input_response: FtxSubResponse::Error {
                msg: "error message".to_owned(),
            },
            is_valid: false,
        },
    ];

    for (index, test) in cases.into_iter().enumerate() {
        let actual = test.input_response.validate().is_ok();
        assert_eq!(actual, test.is_valid, "TestCase {} failed", index);
    }
}

#[test]
fn test_try_from_sub_kind_for_kraken_sub_kind() {
    // TC0: Kraken supported SubKind::Trade
    let actual = KrakenSubKind::try_from(&SubKind::Trade);
    assert!(matches!(actual, Ok(KrakenSubKind::Trade { channel: "trade" })), "TC0 failed");
    assert_eq!(KrakenSubKind::TRADE, "trade");

    // TC1: Kraken supported SubKind::Candle w/ supported Interval::Minute5
    let actual = KrakenSubKind::try_from(&SubKind::Candle(Interval::Minute5));
    assert!(
        matches!(actual, Ok(KrakenSubKind::Candle { channel: "ohlc", interval: 5 })),
        "TC1 failed"
    );
    assert_eq!(KrakenSubKind::CANDLE, "ohlc");

    // TC2: Kraken supported SubKind::Candle w/ unsupported Interval::Month3
    let actual = KrakenSubKind::try_from(&SubKind::Candle(Interval::Month3));
    match actual {
        Err(SocketError::Unsupported { entity, item }) => {
            assert_eq!(entity, "kraken");
            assert_eq!(item, "3M");
        }
        other => panic!("TC2 failed: {other:?}"),
    }

    // TC3: Kraken unsupported SubKind::OrderBookL2
    let actual = KrakenSubKind::try_from(&SubKind::OrderBookL2);
    match actual {
        Err(SocketError::Unsupported { entity, item }) => {
            assert_eq!(entity, "kraken");
            assert_eq!(item, "order_books_l2");
        }
        other => panic!("TC3 failed: {other:?}"),
    }
}

#[test]
fn test_try_from_interval_for_kraken_interval() {
    // TC0: Kraken supported Interval::Minute5
    let actual = KrakenInterval::try_from(&Interval::Minute5);
    assert!(matches!(actual, Ok(KrakenInterval::Minute5)), "TC0 failed");

    // TC1: Kraken unsupported Interval::Hour6
    let actual = KrakenInterval::try_from(&Interval::Hour6);
    match actual {
        Err(SocketError::Unsupported { entity, item }) => {
            assert_eq!(entity, "kraken");
            assert_eq!(item, "6h");
        }
        other => panic!("TC1 failed: {other:?}"),
    }
}

#[test]
fn test_validate_kraken_subscription_response() {
    struct TestCase {
        input_response: KrakenSubResponse,
        is_valid: bool,
    }

    let cases = vec![
        TestCase {
            // TC0: input response is Subscribed
            input_response: KrakenSubResponse::Subscribed {
                channel_name: "trade".to_owned(),
                pair: "XBT/EUR".to_owned(),
                channel_id: 10001,
            },
            is_valid: true,
        },
        TestCase {
            // TC1: input response is Error
            input_response: KrakenSubResponse::Error(KrakenError {
                message: "error message".to_string(),
            }),
            is_valid: false,
        },
    ];

    for (index, test) in cases.into_iter().enumerate() {
        let actual = test.input_response.validate().is_ok();
        assert_eq!(actual, test.is_valid, "TestCase {} failed", index);
    }
}

#[test]
fn test_build_kraken_futures_subscription() {
    // TC0: Supported perpetual future trades subscription
    let input = subscription("XBT", "USD", InstrumentKind::Perpetual, SubKind::Trade);
    let actual = KrakenFuturesUsd::subscription(&input).unwrap();
    assert_eq!(actual.event, "subscribe");
    assert_eq!(actual.pair, "PI_XBTUSD");
    assert!(matches!(actual.kind, KrakenFuturesUsdSubKind::Trade("trade")));
}

#[test]
fn test_build_channel_meta() {
    // TC0: Supported spot trades subscription
    let input = subscription("btc", "usdt", InstrumentKind::Spot, SubKind::Trade);
    let actual = Kucoin::build_channel_metadata(&input);
    match actual {
        Ok(actual) => assert_eq!(actual, "/market/match:BTC-USDT".to_string(), "TC0 failed"),
        Err(error) => panic!("TC0 failed: {error:?}"),
    }
}

#[test]
fn it_works() {
    let actual = Okx::from_name("okx");
    assert!(actual.is_some());
    assert_eq!(Okx::name(), "okx");
}
