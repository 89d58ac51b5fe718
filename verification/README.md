# udp_over_https

A tunnel that carries UDP datagrams over HTTP(S): the client listens on a
local UDP port, aggregates datagrams into JSON bodies of HTTP POST requests,
and emits what the server sends back to the local peer that spoke last; the
server relays the datagrams to a fixed UDP target and answers each request
with the datagrams that target sent in the meantime.

Layout:

- `src/` — the verified library (Verus):
  - `base64.rs`: the base64 framing of datagrams, its specification and laws;
  - `interfaces.rs`: the body of an exchange (`HttpData`) and its view;
  - `server.rs`: request checks and reply assembly;
  - `client.rs`: request assembly, reply checks, the local relay;
  - `exchange.rs`: what holds between the two ends;
  - `channel.rs`: the in-process queues (`async_channel`);
  - `args.rs`: options, defaults, log filter, port numbers.
- `app/` — the program: command line, logging, sockets, HTTP client and
  server, and the run loops that drive the library.
- `tests/` — tests of the library.
