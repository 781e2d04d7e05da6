# waepic

A WhatsApp Web (multi-device) client library whose protocol logic is
verified with Verus.

- `src/` is the verified library: protocol stanzas and their wire form,
  Noise frame counters, IQ requests and routing, the reconnect and read-loop
  state machines, incoming-node handlers, history sync, message building,
  QR and pair-code pairing, the in-memory session cache, and the policies of
  the update stream.  Calls into `wacore`, `wacore-binary`, `waproto` and
  `chrono` stand behind small trusted wrappers whose contracts are stated
  in their doc comments.
- `app/` is the asynchronous shell: the connection runner (transport
  events, Noise XX handshake, keepalive, reconnects), the update stream
  with Signal decryption over the storage backend, pairing, media
  downloads over the application's HTTP client, and the client operations
  (encrypted sends go through wacore).  It performs what the library
  decides.
- `tests/` exercises the library on concrete values.
