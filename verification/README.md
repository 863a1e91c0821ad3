# lan_session

The decisions behind a LAN remote-desktop session, written in Verus: every executable function
states what it returns, and the laws that hold across functions are proved beside them.

- `protocol`, `client`, `server`: the handshake. A server proves with its device key that it is
  party to this very handshake; the client then sends it a session key. Each side is a chain of
  states, so that no step can be taken before the one it rests on.
- `race`: which transport a session runs over, WebRTC or TCP.
- `handshake_laws`, `race_laws`: what holds of every handshake and of every race.
- `bus`, `event`: handing a link to the process that is already running.
- `window`: bringing the main window to the front.
- `display`: waking a locked host's display and blanking it again.
- `messages`, `error`, `text`: what the others share.
- `crypto`: the calls into sodium. Their contracts, and that of the one call into serde_json, in
  `event`, are the only ones that are believed and not proved.

`app/` runs all of this over streams and the session bus. Streams, message encoding and
configuration come from the program around it, through the traits in `app/host.rs`.
