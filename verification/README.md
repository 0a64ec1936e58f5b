# MacWinShare

Keyboard, mouse and clipboard sharing between Mac and Windows computers over
a Deskflow-compatible protocol.

## Layout

- `src/` is the `macwinshare` library, written in Verus. It holds the wire
  protocol (message encoding, framing and decoding), the configuration and its
  defaults, screen edge detection and the screen layout, display geometry, the
  key code tables, the discovery packets, self-signed certificates (generation, PEM
  parsing, fingerprints), clipboard
  change detection, and the decisions of the server and the client (handshake
  checks, message handling, the registry of connected clients). Each public
  function carries a contract, and the properties that relate several
  functions are stated and proved as `lemma_*` proof functions.
- `tests/` exercises the library on concrete values.
- `app/` is the desktop program around the library: configuration files,
  the environment, certificate files, TLS sessions, sockets, mDNS, the system clipboard and the
  native input layers of macOS and Windows.
