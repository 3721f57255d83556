# AquaChain agent gateway, verified core

An HTTP gateway through which AI agents pay with x402 (USDC on Base Sepolia)
and submit drone water measurements, which are relayed to the
citizen-science registry on Osmosis.

- `src/` is the library, verified with Verus:
  - `text`: Unicode whitespace trimming, decimal rendering, port parsing;
  - `digits`, `float_text`: exact decisions on decimal literals (the ranges of
    latitude, longitude and turbidity, as a parse to `f64` would decide them);
  - `measurement`: validation of drone readings and the `submit_data` record;
  - `config`: configuration from environment values and the rules on it;
  - `store`: the in-memory mirror of accepted measurements;
  - `relay`: what is relayed and how the relay helper's answer is read;
  - `x402`: payment requirements, payment headers, facilitator answers;
  - `routes`: health, capabilities, error answers and the decisions of
    `POST /v1/measurements`.
- `app/` is the server: environment, HTTP, JSON, the relay process and the
  facilitator calls.
- `tests/` exercises the library.

The relay helper `scripts/relay-submit-data.mjs` (CosmJS) is not part of this
crate: point `RELAY_SCRIPT` at it, or place it under `scripts/` in the package
directory, where the server looks by default.
