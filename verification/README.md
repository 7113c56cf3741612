# cloudpilot_shim

The decision logic of the CloudpilotEmu Tauri shell, verified with Verus.

- `src/` is the library: release channels and their addresses, the keys of the
  persistent store, the platform names, the webview loading protocol
  (load guard, splash-screen timing, version number, injected scripts),
  network-session consent and session codes, and the DNS servers a session is
  configured with. Each function states its result in `ensures` (for `AppChannel::from_number`,
  in terms of the number its argument's `Into<i64>` gives); the proof
  functions named `lemma_*` state the properties that hold across calls.
- `app/` is the Tauri shell around it: windows and webviews, the store
  plugin, the dialog for network consent, the native network backend and the
  DNS plugin.
- `tests/` runs the library on concrete values.
