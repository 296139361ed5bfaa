# adaq-data-stock-us

Typed access to Yahoo Finance market data (quotes, price history,
fundamentals, options, screeners, calendars, news, live prices), in the
style of Python's `yfinance`.

## Layout

- `src/` — the library, verified with Verus: the request policy (retry,
  backoff, crumb and locale in the query), request builders, identifier
  resolution (MIC suffixes, ISINs), the JSON model and every reader of a
  reply field, the financial-statement table, the screener and calendar
  queries, the live-stream frame decisions and the parity-report parsing.
  Numbers are kept as sent (`JsonNumber`); nothing in `src/` does
  floating-point arithmetic.
- `src/laws.rs` — properties that span several functions, stated and proved
  as proof functions.
- `tests/` — tests of the library on concrete replies.
- `app/` — the program around it: the HTTP session (`primp`), the sqlite
  cache (`rusqlite`), the async and blocking clients, the websocket stream
  (`tokio-tungstenite`, `prost`), the public types with `f64` fields and the
  price arithmetic of bars (adjustment and split repair), and the `parity`
  command.
