# gmocoin

Market data ingestion and backtesting for the GMO Coin public WebSocket feed,
with its decision logic verified by Verus.

- `src/` — the verified library: payload parsing (`model`, `json`, `market`),
  ingestor decisions (`ingest`: subscription plan, frame reactions, topic
  routing, Kafka producer settings), configuration and its defaults
  (`config`), the backtesting API's request checks, SQL and row readers
  (`service`, `sql`, `rows`, `replay`, `merge_sort`, `backtest`), bearer
  authentication (`auth`), health probes (`health`), log format selection
  (`logging`) and test resource handles (`testutils`).
- `app/` — the services around it: WebSocket and Kafka I/O, the ClickHouse
  HTTP client, the admin HTTP server, Prometheus registration, protobuf
  encodings and configuration loading.
- `tests/` — tests of the library on concrete inputs.
