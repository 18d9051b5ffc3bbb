# kora_events

The event layer of the Kora invoice-financing contracts on Soroban, verified
with Verus.

- `src/schema.rs` states the schema of every protocol event: its topic and
  the fields of its payload, in order, together with the laws the schema keeps
  (topics are distinct small symbols, the actor leads, the timestamp closes the
  payload).
- `src/events.rs` holds, per event, a builder with an exact contract and a
  public function that builds the event, stamps it with the ledger close time,
  publishes it, and returns (as ghost state) what it handed to the host, which
  its contract fixes in terms of its arguments.
- `src/host.rs` declares the Soroban SDK types the events carry and the trusted
  wrappers around the SDK calls.
- `src/types.rs` holds the protocol types events carry (`RiskTier`,
  `AdminAuditEntry`).

`tests/events.rs` publishes every event in a Soroban test environment and
checks the recorded contract event; `tests/schema.rs` checks the schema.
