# radiance

The verified core of the Radiance reverse proxy and its companion services
(the certificate service, the management API and the command-line client),
written in Verus.

- `src/` is the library. Every function in it carries a contract that Verus
  proves: the control-socket logic of the proxy and of the certificate
  service, configuration checks, certificate loading and expiry, sessions
  and sign-in decisions, the small parsers the transports use, and the UDP session table. The laws
  that relate several operations are public proof functions (`law_*`).
  Calls into outside crates (x509-parser, rustls-pemfile, rustls, argon2,
  dashmap, rand, ulid) go through small trusted wrappers whose contracts
  say what the crate documents.
- `app/` holds what Verus does not see: sockets, files, the clock, the
  environment, serialisation, and the programs' loops. It hands plain values
  to the library and acts on what the library decides.
- `tests/` runs the library on concrete values.
