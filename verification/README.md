# str0m

Verified parts of a WebRTC stack.

- `src/rtp/ohb.rs`: the original header block that ends a doubly encrypted RTP payload, its wire
  format, and how a middlebox keeps it up to date.
- `src/dimpl_provider/cipher_suite.rs`: the AES-GCM cipher suites of DTLS 1.2 and 1.3, and the
  block encryption that masks record numbers.
- `src/dimpl_provider/kx_group.rs`: the ECDHE key exchange over P-256 and P-384.
- `src/dimpl_provider/buffer.rs`, `evp.rs`, `ec.rs`: what is relied upon of `dimpl` and OpenSSL.
- `src/text.rs`: decimal numbers in error messages.
- `app/`: the implementations of `dimpl`'s traits and the lists that a crypto provider is built
  from.

What is proved rests on the contracts in `buffer.rs`, `evp.rs` and `ec.rs`. They say what the outside
functions return when they succeed and on which inputs they may refuse; any other failure is one of
OpenSSL's resources, which no contract rules out.
