# barter-data

Normalised market data streams from cryptocurrency exchanges (Coinbase, Deribit, Ftx,
Gateio, Kraken, Kraken Futures, Kucoin, Okx, Poloniex), written in Verus.

## Layout

- `src/` — the verified library:
  - `model.rs`: instruments, subscriptions, subscription kinds and identifiers.
  - `exchange/`: per exchange, the channel & market names of a subscription, the
    subscription requests, the checks of subscription responses and the identifiers of
    incoming messages; `subscription_ids.rs` maps identifiers back to subscriptions.
  - `exchange/okx/book.rs`: the sequence keeping of the Okx level 2 order book.
  - `exchange/coinbase/orderbook.rs`: Coinbase level 3 messages as order book events.
  - `stream.rs`: the retry policy of a stream's consumer loop and the stream builder.
  - `text.rs`, `time.rs`, `endpoint.rs`, `error.rs`: shared helpers and errors.
- `tests/` — tests of the library.
- `app/` — ordinary Rust around the library: JSON wire formats, market events (which
  carry floating point prices), and the asynchronous WebSocket plumbing.
