# nse_pipeline

An Angel One / NSE market-data and order-routing pipeline whose deciding
logic is a Verus-verified library.

- `src/` — the verified library: the SmartAPI binary packet parser and tick
  schema (`parser`, `schema`, `le_bytes`), the order-book decoder (`decode`),
  the NSE F&O pre-trade risk checks (`risk`), the execution and data clients'
  decisions (`execution`, `data_client`, `factories`, `orders`), instrument
  tables (`config`), login (`auth`), the ingestion stream rules (`ingest`),
  the session clock and intraday position rules (`session`, `clock`), the
  sliding window of the rolling statistics (`window`), the storage fan-out
  (`storage`), replay of recorded days (`replay`) and the circuit breaker
  (`circuit`), with decimal text helpers (`decimal`, `text`).
- `tests/` — tests of the library.
- `app/` — the command-line program: sockets, HTTP, files, ZeroMQ, the
  floating-point strategy statistics, and the serde shapes of the
  configuration files.
