# rustdesk_server

A rendezvous and relay server for remote-desktop peers, with its rules
proved by Verus.

- `src/` is the verified library:
  - `registry`: the online peers, kept alive by UDP heartbeats and swept
    after 20 s of silence (held in `dashmap` maps);
  - `session`: the TCP sessions on the two ports — the handshake rules, the
    tables shared by both ports that pair the two sides of a relay, the
    rules for passing relayed messages on, and the phases of a session;
  - `punch`: the datagrams sent on the notices of the hole-punching steps;
  - `chat`, `consumer`, `greeter`, `multicast`: the smaller relays and
    services; `clock`, `addr`, `protocol`, `table`: shared pieces;
  - `laws`: properties that span several operations.
- `app/` runs the sockets, timers, channels and the protocol-buffer and gRPC
  code around the library.
- `tests/` runs the library on concrete values.
