# fcastsender

The decision-making core of the FCast Android sender, written in Verus.
The functions under `src/` carry contracts that Verus proves, except for a
few small wrappers around outside calls (`String::push`, `str::from_utf8`,
serde_json's parser, uuid, anyhow's error text), marked
`#[verifier::external_body]`, whose contracts are taken as given.

- `src/application` – the session state machine (receivers, connections,
  casting), banners, default presets and quick actions, the settings lists
  and the status strip.
- `src/backend` – media backend kinds, their stored configuration, the
  registry, the lifecycle panel and the gst-pop / migration backends'
  request framing and reply interpretation.
- `src/command` – the media-graph HTTP command exchange and the debug
  smoke scripts with their reports.
- `src/secret`, `src/config` – the secret store contract and the migration
  of plaintext API keys into it.
- `src/jni_bridge`, `src/platform`, `src/log_ring`, `src/overlay`,
  `src/migration` – the Android bridge decisions, panel navigation,
  recording ticker, log ring, overlays and the screen-capture schedule.
- `src/json`, `src/text` – the JSON values and string helpers the rest is
  stated over.

`app/` holds what Verus does not see: sockets, files, the WebSocket client,
the tracing layer, the JNI-backed secret store and the event loop. The tests
under `tests/` run the library with its outside crates linked.
