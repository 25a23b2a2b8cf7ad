# broker_client

Client library for the TW and A-share stock-broker servers.

- `src/` is the verified library (Verus): configuration and its builders,
  authentication headers, request headers and URLs, query building, path
  encoding, GET retry policy, WebSocket reconnect policy, response-envelope
  and error mapping, `ap_code` decoding, event classification, the quote
  subscription registry, and the models that carry no floating-point data.
  Each public function states its result in `ensures`; the `law_*` proof
  functions state properties that span several calls.
- `app/` holds the async clients built on it (`reqwest`, `tokio`,
  `tokio-tungstenite`): sending requests, waiting, the event-stream loops,
  serde forms of the library's types, and the models with floating-point
  fields.
- `tests/` exercises the library on concrete values.
