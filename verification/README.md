# deepseek-api-client

A client for the DeepSeek chat completion API, verified with Verus.

- `src/` is the verified library:
  - `model.rs`: the request and reply types, the request defaults, `get_response_text`;
  - `json.rs`: JSON values as plain data, and the member lookups that replies need;
  - `events.rs`: splitting a server-sent event stream body into its `data:` payloads,
    with the framing laws;
  - `stream.rs`: merging the events of a streamed reply into one reply, with its laws;
  - `session.rs`: the completion presets, the request each call sends, and what is done
    with each kind of reply;
  - `text.rs`: character-level helpers on strings.
- `app/` holds what the library leaves to ordinary Rust: the serde copies of the types,
  JSON encoding and decoding, and the HTTP calls made with reqwest.
- `tests/` runs the library on concrete values.
