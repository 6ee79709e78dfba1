# scalp_sniper_rtts

A real-time scalp trading system for one symbol: market data comes in, a chain of
stages turns it into scored decisions, sized orders, risk and meta screening, and
paper or control-plane executions, and settled fills flow back as learning samples.

## Layout

- `src/` is the verified library. It holds the integer, enum and string logic of the
  system, each function with a contract proved by Verus: rolling windows, latency
  percentiles, lot matching, the trade tape, the execution controller's action
  ledger and idempotency keys, markout capture, the risk kill switch, the reversal
  watch, the losing-streak lockout, wire-format conversions and event identifiers.
- `tests/` exercises the library on concrete values.
- `app/` is the program around it: configuration, the exchange and control-plane
  websockets, the asynchronous stage pipeline, and the scoring engines, whose
  prices, sizes and scores are floating point and so stay outside the verified
  library. Stage activity is reported through `tracing`.

Run with `RTTS_EXCHANGE=mock` (the default) for a seeded synthetic feed, or
`RTTS_EXCHANGE=binance` with `RTTS_SYMBOL` for the live trade and depth streams.
