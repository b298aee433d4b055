# llmconduit

The decision core of an LLM gateway, written in Verus: what the gateway accepts, forwards,
redacts, stores and reports is stated in contracts and proved.

- `src/` is the library. Each function says in its `ensures` what it returns; what holds of
  several functions together is stated by the public proof functions whose names start with
  `law_`. Calls into other crates stand behind small functions marked
  `#[verifier::external_body]`; the comment above each says what is claimed of the call.
- `tests/` runs the library on concrete values, with the other crates linked.
- `app/` is the server around the library: the command line, sockets, files, the database
  and the clock.

| Module | What it decides |
| --- | --- |
| `json`, `json_string`, `json_text`, `json_doc`, `text`, `digest` | values, texts and digests that everything else is stated over |
| `error` | what the operator and what the client is told of an error |
| `sse_guard` | when a frame of an event stream is too large |
| `redaction` | what is taken out of text, headers and bodies before they are logged |
| `responses_capabilities` | which candidates can take a request |
| `models` | requests, items, events and responses on the wire, and back |
| `http` | what is logged of a request, lists of models, answers |
| `response_store` | which responses can be continued, and which leave |
| `metrics` | counts, latencies and snapshots |
| `search`, `replay`, `request_log`, `log_rotation`, `raw`, `monitor`, `proxy_headers`, `startup` | the rest of the gateway's rules |
