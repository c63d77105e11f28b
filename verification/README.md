# idgen_rs

Snowflake ID generation, verified with Verus. An ID is a 64-bit number made
of a millisecond timestamp (relative to a base time), a worker id and a
per-millisecond sequence number.

Layout:

- `src/layout.rs`: the bit layout of IDs and of the packed generator state,
  the decision taken for a state and a clock reading, and the laws of the
  layout (fields round-trip, IDs increase with the state, distinct workers
  never share an ID, the sign bit stays clear, fields read as numbers).
- `src/fast_generator.rs`: the lock-free generator (one atomic word,
  compare-and-swap) and the extraction of fields from IDs.
- `src/options.rs`: options, their builder, and sizing of the bit fields
  from cluster size and throughput.
- `src/snow_worker_m1.rs`, `src/snow_worker_m2.rs`: the drift and classic
  workers as state machines over clock readings, with the laws that their
  IDs grow with the clock, carry the tick they were issued on, and keep
  their sequence numbers and drifts within bounds.
- `src/default_id_generator.rs`, `src/generator.rs`: validation of options
  and generators that run a worker.
- `src/id_helper.rs`: the operations of the process-wide generator, with the
  generator passed in.
- `src/encoding.rs`: base62 and base64 text forms of IDs.
- `src/time.rs`: clock readings and points in time.
- `app/`: the process-wide generators (a `OnceLock` and a locked
  generator), sleeping until the clock moves on, and the example program.
