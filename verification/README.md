# mmc

MMC connects devices on a local network: it finds them (mDNS), pairs them
(X25519 key agreement), and between paired devices sends files in hashed
chunks, keeps clipboards in step, and mirrors screens with input control.

The library under `src/` is written in Verus and verified: each public
function states what it returns and how it changes state, over
mathematical models of its types, and the laws that tie functions
together (codec and frame round trips, the honest handshake, bounded
histories, files rejoining from their chunks, ...) are proof functions.
What depends on the clock, on chance or on the operating system is
stated as far as it can be: the library says what it does with each
reading. Each service keeps a ghost log of the values it hands to its
`tokio` channels (events published, requests offered, decisions sent),
and its contracts state those logs; what a receiver then gets is
`tokio`'s delivery, which is not modelled.

- `src/protocol.rs`: frames of the TCP protocol and the message types.
- `src/media/`: video and audio codecs, frame generators, the mirroring
  session, input dispatch and the platform adapters.
- `src/clipboard/`: the clipboard manager, its frames and the syncer.
- `src/security/`: key pairs, certificates and the handshake state machine.
- `src/file_transfer/`, `src/pairing/`, `src/discovery/`, `src/storage.rs`:
  the services' tables and decisions.
- `src/core_api/`: the unified API (`MmcCore`) and its plain types.
- `src/desktop/`, `src/gui/`: the desktop application's state, commands,
  interactive mode, clipboard monitor, and the GUI's records and routes.

`app/` is the program around it: the command line, network and file I/O,
mDNS, the system clipboard, the HTTP server, JSON, and what computes with
floating point. `tests/` exercises the library.

Not here: the desktop GUI's window (its drawing code is written against
`eframe`/`egui`, which this build does not have); the GUI's state that
the library can hold (its log, its device records, its HTTP routes) is in
`src/gui/`. The device database is likewise absent (`rusqlite` is not
available), so `StorageService` holds nothing.
