# cvdtrader

A trading bot for the Hyperliquid exchange that runs the CVDPoC strategy
(cumulative volume delta and point of control), built around a library of
decisions proved correct with Verus.

## Layout

- `src/` — the verified library (`cvdtrader`). It holds the bot's decisions
  that can be taken on plain values; the comparisons of fractional prices,
  sizes and CVD that feed them are made in `app/`:
  - `types` — order, position, signal and exit kinds, their display texts and
    the codes under which trades are stored (with round-trip proofs);
  - `config` — the exchange, execution, logging and bot sections, their
    defaults, and the validation rules in the order they are applied;
  - `window` — the bounded history behind the indicator histories, and the
    per-symbol candle store built from it;
  - `circuit_breaker` — the breaker that trips on latency or on consecutive
    failures, and reports when the shutdown signal is due;
  - `market_data` — feed messages (read through `serde_json`), side codes,
    heartbeats, channels, subscriptions, candle roll-over and the reconnect
    backoff;
  - `strategy` — entry signals with their direction and setup, exits and the
    CVD trailing of positions;
  - `event_loop` — the steps of the main loop, from a trade to the order,
    the exit and the circuit breaker's bookkeeping, and when it stops;
  - `risk`, `execution`, `errors`, `health` — risk limits, order life cycle,
    execution errors (classified from the HTTP client's errors) and the
    health report;
  - `text` — decimal and boolean texts used in messages.
- `app/` — the program: WebSocket and HTTP I/O, SQLite storage, async
  plumbing that performs each step the library decides, configuration
  files, and the price, size and CVD arithmetic on `f64` values, which
  feeds the library's decisions.
- `tests/` — tests of the library.
