# statime

A verified library for the wire formats, data sets and decisions of the
Precision Time Protocol (IEEE1588), versions 1 and 2, written in Verus.

- `src/datastructures`: the PTP data types and their wire formats. Every
  serializer states the exact bytes it writes and every deserializer what it
  reads or which error it returns; round trips are proved as lemmas.
  `messages/timing.rs` makes the sync, follow up, delay request and
  (peer) delay response messages; `messages/signing.rs` finds the authentication TLV of a message, states
  which bytes its integrity check value covers, and checks and makes
  signatures through the user's security association provider.
- `src/bmc`: the data set comparison algorithm (IEEE1588-2019 figures 34 and
  35), the choice of the best announce message, the state decision
  algorithm (figure 33) and the foreign master list with its qualification
  and ageing, specified as spec functions and proved.
- `src/port`: the decisions of a port: the sync, follow up and delay
  response matching of a slave and the peer delay mechanism with its faulty
  detection, each giving the measurement it completes for the filter
  (`port/timing.rs`); the handling of announce messages (data sets, path
  trace, multiport check); the state that the BMCA recommends; and what a
  master sends: announce messages and their TLVs, syncs and follow ups,
  delay responses and peer delay responses.
- `src/ptp_instance.rs`: the best master clock algorithm of the instance,
  run over all its ports, with the data sets it updates.
- `src/time`, `src/clock`, `src/config`, `src/crypto`, `src/observability`,
  `src/filters`: time in fixed point, intervals, time properties,
  configuration, security traits, observable data sets and filter results.
- `tests/`: tests run against the compiled library.
- `app/`: what the verifier does not take: serde and thiserror forms of the
  library's types, asynchronous and user-implemented traits, the clock
  trait and the Kalman filter, which compute in floating point.
