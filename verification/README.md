# yaws_tls

TLS orbits for YAWS: state machines that sit between a Left side (network,
ciphertext) and a Right side (application, cleartext) and advance a TLS
connection one step at a time.

- `src/` is the verified library.
  - `position`, `error`: what an advance reports.
  - `ab_io_orbit`: the Left and Right sides backed by byte vectors, with a
    model of each.
  - `rustls_blueprint`: configuration, client, server and the orbit that
    drives an unbuffered rustls connection; the laws of an advance.
  - `rustls_api`: the calls into rustls, rustls-pki-types and
    rustls-rustcrypto, each with the contract it is trusted to meet.
  - `ytls_blueprint`: the yTLS server configuration in fixed-capacity
    buffers and the byte plumbing around the yTLS server context.
  - `ab_io_std`, `ab_driver`, `ab_injector`: the A/B test harness that feeds
    a client's stream to an orbit and plays the application.
  - `ab_ytls`: the yTLS server's test materials decoded from PEM and SEC1.
- `app/` holds what needs I/O or the outside traits: file loading, the yTLS
  server orbit, the std stream and the teapot exchange against an OpenSSL
  client.
- `tests/` runs the library, including a full rustls handshake between a
  client and a server orbit.
