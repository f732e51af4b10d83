# rslsk

A client library for the Soulseek peer-to-peer protocol, verified with Verus.

- `src/` is the verified library: the wire format (`message/`: encoding with
  `Pack`, decoding with `Unpack`, and the laws that a value reads back as
  itself), framing (`protocol/`: cutting received bytes into messages,
  building the framed login with its MD5 credentials hash), the decoding of
  what the server and peers send (`server.rs`, `peer.rs`), the requests the
  client's commands send (`command_handlers`), and the store of search
  results (`results.rs`).
- `app/` is the asynchronous client around it: sockets, tokio tasks and
  channels, printing.
- `tests/` exercises the library on concrete messages.
