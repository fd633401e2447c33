# rig-budget-guard

Token budget enforcement for LLM agents, verified with Verus.

A guard wraps an agent and accounts for every `prompt`, `chat` and `completion` call: it charges an
estimate of the tokens to a per-model budget, lets the `conservation-checker` crate detect spending
phases, logs the call (the latest 1000 events are kept), warns before a call, and puts a header on
replies once a threshold is exceeded. Snapshots show all of it.

- `src/` is the library. It decides and accounts, makes no calls itself, and is verified throughout.
  Tokens are whole numbers and usage ratios exact fractions.
- `app/` is the middleware for Rig agents: it makes the calls, shares the state under a lock, and
  writes snapshots as JSON.
- `tests/` runs the library, with the crates that it rests on.

What is taken on trust of other crates stands in `src/checker.rs` and `src/stamp.rs`. What holds of
the library as a whole stands in `src/laws.rs`, and next to the types that it is about.
