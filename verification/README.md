# tornado_monitoring

A verified library for the monitoring executors of Tornado: an icinga2 satellite that sends
the state of hosts and services to an icinga2 master over its JSON-RPC protocol, the
IcingaWeb2 Director executor, and the decisions of the parallel smart monitoring executor.

Layout:

- `src/` is the library, written in Verus and verified:
  - `icinga/` holds the icinga2 model: the configuration of hosts and services as icinga2
    reads it (`config`), check results, timestamps, log positions, the `icinga::Hello`
    parameters, certificates, object creation and deletion, the JSON-RPC methods, and the
    store of the objects the master announced (`object_store`).
  - `satellite.rs` holds the decisions of the satellite's connection: which creation messages
    precede a check result, what the sender and the receiver do with each event, how pending
    calls are acknowledged, and which requests are sent again after a lost connection.
  - `director.rs`, `parallel.rs`, `metrics.rs`, `executor.rs` hold the executors' logic;
    `benchmark.rs` the requests of the satellite's benchmark.
  - `text.rs` and `value.rs` hold text building and the JSON-like values of payloads.
- `tests/` holds the tests of the library.
- `app/` is the program around it: JSON (de)serialization, TLS, sockets, files, and the
  asynchronous loops that perform what the library decides.
