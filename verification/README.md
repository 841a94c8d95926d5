# omlx

A client library for oMLX, a local LLM server on macOS with an
OpenAI-compatible chat-completions endpoint. The default endpoint is
`http://localhost:1993/v1/chat/completions`.

The library is written in Verus. Its functions carry contracts that Verus proves:
how a request is translated to the protocol, how a response is read, how an
exchange with a server goes on after each event, and what a request is estimated
to cost.

- `src/ai.rs`: requests and responses as callers see them
- `src/wire.rs`: requests and responses as the server sees them
- `src/request.rs`, `src/response.rs`: the way from the one to the other
- `src/exchange.rs`, `src/error.rs`: an exchange as a state machine, and its errors
- `src/client.rs`: the client's settings and the defaults for models
- `src/tokens.rs`: the estimate of a request's tokens
- `src/text.rs`, `src/json.rs`: text, and the calls into `serde_json`
- `src/laws.rs`: what holds of the library as a whole
- `app/`: the provider that talks to a server over HTTP

A configuration of a program that uses the provider may look like this:

```toml
[ai]
provider = "omlx"
model = "gemma-4-27b-it"

[ai.omlx]
base_url = "http://localhost:1993/v1/chat/completions"
context_window_size = 131072
max_tokens = 8192
```

The key is taken from `OMLX_API_KEY` or else from `LLM_API_KEY`; without a key,
requests carry no authorization.
