# tee_ell_ess

The client side of a TLS 1.3 handshake (RFC 8446) and the TLS wire
format, written in Verus. The library's parsers, encoders and
handshake steps carry contracts that state what they return and how
they change their arguments, and Verus proves the code meets them.

## Layout

- `src/wire/`: the wire format. `parse` and `encode` give each wire type
  a parser and an encoder with an exact specification over byte
  sequences; `vec/` holds the length-prefixed vectors and their
  iterators; `tls13/` the handshake messages and extensions;
  `roundtrip` the laws that parsing gives back what encoding wrote;
  `tls13/records.rs` records and handshake messages; `tls13/codes.rs`
  extensions told apart by their type code.
- `src/tls/`: record and handshake headers, the extension mask that
  detects repeated extensions, host names, versions and fragment
  lengths.
- `src/client/`: the checks that a `ClientHello`'s extensions are
  allowed and unique, the client configuration, and the handshake as a
  sequence of steps over a receive buffer and a send buffer.
- `src/server/`: the `ServerHello` extensions and version selection.
- `src/util.rs`, `src/crypto/`: buffers, hex encoding, constant-time
  comparison (through `subtle`) and key erasure (through `zeroize`).
- `app/`: what the library leaves to its caller: the I/O loop that reads
  records from a transport and drives the handshake steps.
- `tests/`: tests on concrete values.

## Checking

Verus verifies `src/`; the tests run against the compiled library with
the real `subtle` and `zeroize` crates linked.
