# bitvavo-api-client

A client for the [Bitvavo API](https://docs.bitvavo.com/), written in Verus.

`src/` is the verified library. It decides everything the client sends,
what a response status means, and what kind of message a WebSocket text is:

- `config` — the client configuration, its builders, and a debug text that
  never shows the API key or secret;
- `auth` — request signing: lowercase hex HMAC-SHA256 over
  `{timestamp}{method}/v2{path}{body}`;
- `params`, `requests` — query pairs of the listing endpoints and JSON bodies
  of the trading and withdrawal endpoints, one entry per field that is set,
  ordered by key;
- `rest` — what each REST endpoint sends, how a request is addressed, signed
  and headed, what a response status means, and the rate limit state;
- `ws` — the WebSocket messages, the classification of received texts by
  their top-level fields, where their payload lies, and the decisions and
  states of the connection loop;
- `transport` — the check of a configured transport URL;
- `text` — decimal numbers, JSON strings, hex and integer parsing.

`app/` drives the network: the REST client over `reqwest`, the WebSocket
client over `tokio-tungstenite`, and the serde shapes into which response
bodies and event payloads are decoded.

`tests/` exercises the library on concrete values.
