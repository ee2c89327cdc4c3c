# matchbox_socket

The native side of a WebRTC socket: it signs in to a signalling server, shakes hands with the
peers that it meets there, trickles ICE candidates to them, and exchanges packets with them over
data channels.

- `src/` is the verified library. It takes the decisions: it is told what has happened and says
  what is to be done next, as data. `handshake` is the offer and the answer, `trickle` and
  `remote_candidates` are the two ends of candidate exchange, `data_channel` and `connection` lay
  out a connection, `peer_loop` runs it, and `signaller` is the connection to the server. What
  holds of every course of events stands as proof functions whose names begin with `law_`;
  those that join a handshake to its trickle are in `session_laws`.
- `app/` carries these decisions out over WebSockets and WebRTC.
- `tests/` runs the library against the crates that it calls.

Calls into other crates stand behind small functions marked `external_body`; their comments say
what is taken for granted of each.
