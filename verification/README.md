# transport_upgrade

Moves a remote-desktop session from the connection it was made on to an iroh
(QUIC) one while it is in use, and picks and sets up the QUIC transports beside
it.

`src/` is the library, verified with Verus. It holds no sockets, timers or
processes: each function takes what was read or what happened and returns what is
to be written or done next.

- `iroh_upgrade`: the state machine of the upgrade.
- `iroh_upgrade_session`, `message_proto`: one upgrade of one connection, with
  its messages, dials and orders to the connection.
- `iroh_transition`, `stream`, `tcp`, `websocket`, `webrtc`: the connection, its
  encryption, and the switch from one channel to another.
- `crypto_handoff`: handing the encryption state over.
- `handover`: carrying a session's orders out on the connection.
- `iroh_transport`: iroh identities, configuration and connections.
- `quic_stream`: QUIC on a punched UDP socket.
- `quic_sidecar`: QUIC through a sidecar process.
- `hex_text`, `net`, `text`: hexadecimal digits, addresses and text.
- `*_laws`: what holds over all events, runs and both sides together.

`tests/` runs the library on concrete values, the outside crates included.
`app/` is ordinary Rust around it: sockets, endpoints, processes and timers.
