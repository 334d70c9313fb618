# kucoin_bot

The decision logic of a KuCoin margin trading bot, verified with Verus.

The bot listens to the exchange's private websocket. When an entry order of
a bot fills, it places a take-profit and a stop-loss stop order; when one of
those fills, it cancels the other, settles the bot's balance and opens the
next trade. It also repays margin debts from available funds and re-places
stop orders that the exchange failed to execute.

Layout:

- `src/` — the verified library.
  - `decimal.rs`: decimals as sign, 96-bit magnitude and scale; the calls into
    `rust_decimal` for parsing, comparison, arithmetic and the decimal text;
    truncation, normalization and `min`, proved against their specifications.
  - `text.rs`: text comparison and lowercasing.
  - `models.rs`: the exchange's and the database's records, the order enums with
    their names, and the parsing of decimal fields.
  - `order_processor.rs`: filled entries and exits: balances, average price, exit
    orders, what follows their placement, settlement.
  - `stop_order_handlers.rs`: failed stop orders and cancelling all stop orders.
  - `handlers.rs`: routing of websocket messages and repayment of debts.
  - `error.rs`: why a step fails.
- `tests/` — tests of the library on concrete values.
- `app/` — the I/O around the library: serde and sqlx copies of the records,
  the repository traits, the exchange requests as a trait, and the async
  handlers that read, ask the library, and write.
