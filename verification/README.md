# speech

The configuration, request-building, error-mapping and custom-language-model
authoring logic of Rust bindings for Apple's Speech framework, written in
Verus. Every function under `src/` carries a contract, and Verus proves all
of them but two: the wrappers in `reply.rs` around `serde_json` (reading a
JSON list of strings, and the text of its error) are trusted, and their
contracts say only what `serde_json` documents.

## Layout

- `src/` — the verified library.
  - `error.rs`: bridge status codes, authorization states, framework error
    codes and the display text of errors.
  - `request.rs`: task hints, callback queues, recognition request options
    (on-device recognition is required by default) and the payloads the
    bridge receives for them.
  - `dictation.rs`: dictation presets and options, and their payload.
  - `custom_language_model.rs`: phrase counts, pronunciations, template
    generators with class placeholders and their expansion, and the
    authoring data of a custom language model.
  - `language_model.rs`, `recognizer.rs`, `asset_inventory.rs`, `live.rs`,
    `transcription.rs`: small value types.
  - `reply.rs`: decoding of the bridge's replies (status and JSON string
    lists, the latter read with `serde_json`).
  - `argument.rs`, `text.rs`: checks and helpers on text.
- `tests/` — tests run against the compiled library.
- `app/` — the unverified layer: the C declarations of the Swift bridge,
  JSON encoding of payloads, callback plumbing, and the result types that
  hold floating-point values.
