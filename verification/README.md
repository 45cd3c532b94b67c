# cloudkit

Rust bindings for Apple's CloudKit framework, with the value layer verified
by Verus.

- `src/` is the verified library: records and their fields, record and zone
  identifiers, references, assets, queries, subscriptions, notification info
  and notifications, sharing (shares, participants, metadata, sharing options),
  operation configurations and the bookkeeping of the record-zone and sharing
  operations, fetched results, errors and their codes, sync-engine state,
  scopes, contexts and events, and the payloads exchanged with the native
  bridge. Every public function states its result in `ensures`; the laws
  (payload round trips, raw-value round trips, the sync-engine state staying
  free of duplicates, what a record reads back after a write) are public proof
  functions.
- `app/` is the unverified part that talks to CloudKit: the C bridge
  declarations, JSON encoding of the payloads with serde, the container,
  database, share and operation calls, completion-handler trampolines, fresh
  operation identifiers, the system-sharing observer and the sync engine with
  its user-supplied delegate.
- `tests/` runs the library on concrete values.
