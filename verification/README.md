# eframe (verified core)

The verified part of eframe's app interface, written in Verus.

- `src/keyboard.rs`: the key model that numpad interception reads (physical key
  codes, logical keys, key locations).
- `src/numpad.rs`: the capture modes, the captured event, keybind names, the
  interception itself and the properties it keeps.
- `src/capture.rs`: the numpad state of a frame: mode, bound keys, captured events.
- `src/backend.rs`: the rendering backend choice and its names.
- `src/options.rs`: the plain-valued window and web settings with their defaults.
- `src/web.rs`, `src/storage.rs`: web environment information and the storage interface.
- `app/`: the app trait, frame and creation context with their window and
  renderer handles, window options, RON persistence, and the translation of the
  windowing library's keyboard events into the key model.
