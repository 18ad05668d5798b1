# gat-gwm

GlazeTiler keeps GlazeWM's tiling direction aligned with the focused window:
a window wider than tall asks for horizontal tiling, a taller one for
vertical. It listens to GlazeWM's IPC WebSocket and shows its state in a tray.

## Layout

- `src/` is the verified library.
  - `tiling.rs`: directions, their IPC commands, and the rule that compares a
    window's width and height (held as IEEE 754 binary64 encodings).
  - `protocol.rs`: containers, GlazeWM events, the focused-window search, and
    the classification of a message from what the JSON decoder made of it.
  - `runtime.rs`: the two state machines of the connection runtime (one event
    stream; the reconnecting supervisor with its back-off schedule).
  - `diagnostics.rs`: runtime events, the tray state and its texts, log lines
    and log locations.
  - `text.rs`: decimal numbers, Unicode white space, single-line text.
  - `icon.rs`: the tray icon's pixels.
  - `shutdown.rs`: the shared shutdown flag.
- `app/` is the tray program: the window-system event loop, the socket, serde
  decoding, the files and the environment. It drives the library's state
  machines and shows the library's texts.
- `tests/` runs the library on concrete cases.
