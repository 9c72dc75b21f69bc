# elevenlabs_sdk

A client library for the ElevenLabs REST API whose decision logic is
verified with Verus.

## Layout

- `src/` — the verified library:
  - `middleware.rs`: which statuses are retried, the exponential backoff
    delay (capped at 30 s, at least the server's `Retry-After`), the parsing
    of `Retry-After`, and the retry decision after each attempt, with the
    laws that bound the number of attempts and the delays.
  - `client.rs`: base URL and endpoint URLs, the `xi-api-key` header value,
    and the mapping of an HTTP status and error body to an `ElevenLabsError`.
  - `error.rs`: `ElevenLabsError` and its messages.
  - `multipart.rs`, `query.rs`, `text.rs`: `multipart/form-data` bodies,
    query strings and the number/hex renderings they use.
  - `types.rs`: the API's enumerations and their wire names.
  - `services/`: endpoint paths and request bodies of each API group.
- `app/` — the asynchronous client around the library: the `hpx` HTTP client,
  the retry loop that sleeps between attempts, JSON bodies, configuration,
  and the typed service handles.
- `tests/` — tests of the library.
