# Executive

Transaction execution in Verus: who is called or created with what, when value and gas move, what
is committed and what is taken back, and what the receipt of a transaction says.

An executive owns no state. Every execution is a run that asks its host (for balances, nonces,
code, built-in contracts, the execution of code), is answered, and tells the host what to do. The
runs are in `src/`, each with a mathematical model of its steps and executable code that is proved
to follow it. `src/laws/` proves what holds of every conversation between a run and a host:

- The books of a transaction balance.
- A rejected transaction changes nothing, but for what the sender of a virtual one is given.
- A call or a creation takes at most one checkpoint and closes it at most once, as the result
  demands. The checkpoint stays open only where the host failed or where the expiry that a creation
  requests has passed.

- `src/` is the library.
- `tests/` runs it, step by step and against a small host in memory.
- `app/` has the loops that drive runs with a host, and the JSON form of authority parameters.
