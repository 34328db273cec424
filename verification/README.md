# trading_agent

A crypto trading agent: it reads market regimes, asks a language model for an
interpretation through a tool-calling loop, and places or closes futures
positions on Kraken with stop-loss and take-profit orders.

## Layout

- `src/` is the library, written in Verus. Every decision of the agent is an
  executable function with a `requires`/`ensures` contract proved by Verus:
  order construction, the open-trade and close-trade state machines, the
  agent's tool loop, the retry policy, trade planning, request signing and
  preparation, and the filters and texts of the market data. Calls into
  `serde_json`, `base64`, `sha2`, `hmac` and `rand` go through small trusted
  wrappers whose doc comments say what is claimed of them.
- `app/` is the program around the library: HTTP clients, the model client,
  logging, configuration from the environment, the floating-point market
  indicators, and the loops that perform each action the library decides and
  hand back what came of it.
- `tests/` runs the library on concrete values.

Prices and sizes are generic in the library (`N`) and `f64` in the program.
