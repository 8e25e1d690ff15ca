# rain-status

A Discord rich-presence daemon for desktop media: MPRIS players on the
session bus and a browser extension posting to a local HTTP port feed a hub
of media sessions; the hub picks what is playing, and two presences (music
and video) show it on Discord.

`src/` is the verified library (Verus):

- `text` – string operations with their specifications (trim, ASCII case,
  search, join, replace, decimal notation).
- `keyed` – a string-keyed map kept as a list in arrival order.
- `ipc` – the Discord IPC socket path, frame layout and messages.
- `media` – tracks, timelines, sessions, the hub that applies source
  updates and selects the active session, and the logic of the HTTP and
  MPRIS sources.
- `mpris` – MPRIS status names and metadata reading.
- `status` – media classification, artwork resolution, presence slots and
  the pairing of the two presences.
- `web` – URL parsing (through the `url` crate).

`app/` is the daemon around it: sockets, D-Bus, HTTP, network lookups,
serde forms of the messages, and the main loop.
