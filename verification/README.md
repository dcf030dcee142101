# remotecontrol

A browser-based remote desktop system. A desktop client registers with a
signalling server under an id derived from its MAC address and a ten-digit
auth code; a browser that presents both is attached, and the two set up a
WebRTC connection over which the client streams its screen as H.264 and the
browser sends mouse and keyboard input. STUN and TURN servers help the peers
reach each other.

## Layout

- `src/` — the verified library (Verus):
  - `server_types`, `client_types`: the protocol messages;
  - `registry`, `signaling`, `server`, `signals_server`: client registration,
    browser attachment and message relaying of the two signalling servers;
  - `network`: the desktop client's signalling session as a state machine;
  - `client_config`, `server_config`, `service`: settings, auth codes, MAC
    addresses, ICE server lists, and the service controls;
  - `input`, `threads`: key and button mapping and input-event dispatch;
  - `screen`: frame scaling, change detection, JPEG and Base64 packaging;
  - `annexb`, `video_encoder`, `video_track`, `stream`: H.264 bitstream
    handling, the key-frame schedule, RTP payload planning, encoder switching,
    quality adaptation, stream settings and state;
  - `peer`: SDP statistics, ICE candidate lines and answers;
  - `relay`: STUN request classification and the TURN credential table;
  - `text`: string helpers.
- `tests/`: tests of the library.
- `app/`: the programs (`server`, `signals-server`, `stun`, `turn`,
  `client`): sockets, WebSockets, WebRTC, capture, platform input, JSON and
  YAML, around the library's decisions.
