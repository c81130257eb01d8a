# VNKey

A Vietnamese input engine (Telex and VNI, modern and classic tone placement,
spelling checks) with the decisions of its keyboard hooks, control panels and
application lists, written in Verus and proved against its contracts.

## Layout

- `src/` — the verified library.
  - `lib.rs`: the engine (`Engine::process_key`), the minimal suffix edit and
    the laws of the host text and the engine state.
  - `telex.rs`, `vni.rs`, `compose.rs`: one keystroke of each input method.
  - `spelling.rs`, `tone.rs`: syllables, vowel tables, casing, tone placement.
  - `hook.rs`: key maps and the key-event decisions of the hooks.
  - `replacement.rs`: the Accessibility replacement policy and its cache.
  - `settings.rs`, `tray.rs`: settings, macros, tray commands and the tray menu.
  - `apps.rs`, `linux_apps.rs`, `win_apps.rs`: application records and lists.
  - `text.rs`: text helpers and the wrappers around std and outside calls.
- `tests/` — tests of the library.
- `app/` — the daemon (global hook through `rdev`), settings files (serde) and
  the Linux application list (`xprop`, `/proc`).
