# wezterm (verified core)

Pieces of a terminal emulator whose decisions are proved with Verus.

- `src/input.rs` — mouse types and the click-streak tracker (double/triple clicks).
- `src/forward.rs` — SSH port-forward specifications parsed from `[host:]port` text,
  with the exact semantics of splitting on `:` and of decimal `u16` parsing.
- `src/frame.rs` — the client-side Wayland window frame: hit testing, click
  actions, cursors, state changes, geometry and the drawing plan.
- `src/session.rs` — the `poll(2)` interest of an SSH session.
- `src/domain.rs`, `src/scripting.rs` — decisions behind the scripting API
  (domain handles, URL opening, lookup errors).
- `src/text.rs` — decimal text of numbers.

`app/` holds what talks to the outside world: the Wayland frame that owns the
surfaces and performs the requests the library decides, the SSH session wrapper,
and serialisable copies of the mouse types.

The crate targets Linux and the BSDs (macOS included): the `poll(2)` flag
values it states are those of `libc` on these systems.
