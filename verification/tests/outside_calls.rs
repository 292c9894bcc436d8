use barter_data::error::SocketError;
use barter_data::exchange::coinbase::Coinbase;
use barter_data::exchange::deribit::{Deribit, DeribitMarket};
use barter_data::exchange::gateio::{GateioChannel, GateioMarket, GateioSpot};
use barter_data::exchange::kraken::{Kraken, KrakenSubKind, KrakenSubscription};
use barter_data::exchange::okx::{Okx, OkxMarket};
use barter_data::exchange::ExchangeSub;
use barter_data::model::{Instrument, InstrumentKind, OptionContract, OptionExercise, OptionKind};
use std::time::{SystemTime, UNIX_EPOCH};

const MAY_24_2024_MS: i64 = 1716537600000;

#[test]
fn exchange_urls_parse_as_the_url_crate_does() {
    assert_eq!(Coinbase::url().unwrap().as_str(), "wss://ws-feed.exchange.coinbase.com/");
    assert_eq!(Okx::url().unwrap().host_str(), Some("wsaws.okx.com"));
    assert_eq!(Kraken::url().unwrap().as_str(), "wss://ws.kraken.com/");
    // "www.deribit.com" has no scheme, so it is not an absolute URL.
    assert!(matches!(Deribit::url(), Err(SocketError::UrlParse(_))));
}

#[test]
fn deribit_markets_render_expiry_dates() {
    let future = Instrument::new("btc", "usd", InstrumentKind::Future { expiry_ms: MAY_24_2024_MS });
    assert_eq!(DeribitMarket::for_instrument(&future).unwrap().0, "BTC-24MAY24");

    let option = Instrument::new(
        "btc",
        "usd",
        InstrumentKind::Option(OptionContract {
            kind: OptionKind::Put,
            exercise: OptionExercise::European,
            expiry_ms: MAY_24_2024_MS,
            strike: "58000".to_string(),
        }),
    );
    assert_eq!(DeribitMarket::for_instrument(&option).unwrap().0, "BTC-24MAY24-58000-P");

    let perpetual = Instrument::new("avax", "usdc", InstrumentKind::Perpetual);
    assert_eq!(DeribitMarket::for_instrument(&perpetual).unwrap().0, "AVAX_USDC-PERPETUAL");
    let perpetual = Instrument::new("btc", "usd", InstrumentKind::Perpetual);
    assert_eq!(DeribitMarket::for_instrument(&perpetual).unwrap().0, "BTC-PERPETUAL");

    let out_of_range = Instrument::new("btc", "usd", InstrumentKind::Future { expiry_ms: i64::MAX });
    assert!(DeribitMarket::for_instrument(&out_of_range).is_none());
}

#[test]
fn okx_markets_render_expiry_dates() {
    let future = Instrument::new("btc", "usd", InstrumentKind::Future { expiry_ms: MAY_24_2024_MS });
    assert_eq!(OkxMarket::for_instrument(&future).unwrap().0, "BTC-USD-240524");
    let perpetual = Instrument::new("eth", "usdt", InstrumentKind::Perpetual);
    assert_eq!(OkxMarket::for_instrument(&perpetual).unwrap().0, "ETH-USDT-SWAP");
    let option = Instrument::new(
        "btc",
        "usd",
        InstrumentKind::Option(OptionContract {
            kind: OptionKind::Call,
            exercise: OptionExercise::American,
            expiry_ms: MAY_24_2024_MS,
            strike: "50000".to_string(),
        }),
    );
    assert_eq!(OkxMarket::for_instrument(&option).unwrap().0, "BTC-USD-240524-50000-C");
}

#[test]
fn gateio_requests_are_stamped_with_the_current_time() {
    let now = || SystemTime::now().duration_since(UNIX_EPOCH).unwrap().as_millis() as i64;
    let before = now();
    let market = GateioMarket::for_instrument(&Instrument::new("btc", "usdt", InstrumentKind::Spot));
    assert_eq!(market.0, "BTC_USDT");
    let requests = GateioSpot::requests(vec![ExchangeSub::from_pair(GateioChannel::spot_trades(), market)]);
    let after = now();
    assert_eq!(requests.len(), 1);
    assert!(before <= requests[0].time && requests[0].time <= after);
    assert_eq!(requests[0].event, "subscribe");
    assert_eq!(requests[0].channel, "spot.trades");
    assert_eq!(requests[0].payload, vec!["BTC_USDT".to_string()]);
}

#[test]
fn kraken_subscription_ids_tell_kinds_apart() {
    let trade = KrakenSubscription::new("XBT/USD".to_string(), KrakenSubKind::Trade { channel: "trade" });
    let candle5 = KrakenSubscription::new("XBT/USD".to_string(), KrakenSubKind::Candle { channel: "ohlc", interval: 5 });
    let candle15 = KrakenSubscription::new("XBT/USD".to_string(), KrakenSubKind::Candle { channel: "ohlc", interval: 15 });
    assert_eq!(trade.id().0, "trade|XBT/USD");
    assert_eq!(candle5.id().0, "ohlc-5|XBT/USD");
    assert_eq!(candle15.id().0, "ohlc-15|XBT/USD");
    assert_eq!(
        barter_data::exchange::kraken::candle_subscription_id("ohlc-5", "XBT/USD").0,
        candle5.id().0
    );
}
