# multipeerconnectivity

Bindings to Apple's MultipeerConnectivity framework on macOS, with the
argument checks, error handling and delegate bookkeeping verified with Verus.

- `src/` is the verified library: the checks that service types (RFC 6335),
  discovery info and peer display names pass before they reach the framework
  (which raises an uncatchable exception for anything else), the NUL-terminated
  text handed across, `MCErrorCode` and the crate's error values, the session
  enumerations and their raw values, the kinds of delegate events, the
  advertiser-assistant delegate builder, and the reference count of delegate
  contexts. Discovery info is written as JSON with `serde_json`.
- `app/` holds the calls into the Swift bridge: peer IDs, sessions, the nearby
  browser and advertiser, the advertiser assistant, the browser view
  controller, delegate trampolines and the async event streams built on
  `doom-fish-utils`.
- `tests/` runs the library on concrete values.
