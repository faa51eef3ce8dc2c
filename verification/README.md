# tmux-client

A typed client for the tmux terminal multiplexer, in two layers.

- `src/` is the verified library (Verus). It builds every tmux command as
  data, decodes every reply, and holds the rules in between: format catalogs
  gated by release, listing rows, option and environment output, identities
  and targets, version parsing and capability checks, redacted command
  summaries, buffer and lookup decisions. Each public function carries a
  contract over mathematical views, and the `law_*` proof functions state what
  holds across calls (round trips, orderings, redaction).
- `app/` runs tmux with Tokio and wraps the library in asynchronous handles
  (`Server`, `Session`, `Window`, `Pane`, `Client`, `Buffer`), typed in-memory
  filters (`FilterExpr`), and test support with isolated sockets.

The tests under `tests/` exercise the library from outside.
