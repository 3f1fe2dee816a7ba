# box_client

A client library for the Ascii Box Public API v1, written in Verus.

`src/` is the verified library. It plans every API call as an `ApiRequest` (method, URL,
headers, query, JSON body, timeout, attempts), validates box ids, file paths, tokens and base
paths, maps failure responses to errors, decides retries and the steps of
`wait_until_ready`, and renders configurations, errors and request/response types for logs
without their secrets.

- `client.rs`: box ids, error bodies, status lines, the retry rule, request planning.
- `config.rs`: configuration, the base path rule, timeouts, token redaction.
- `error.rs`: the error type, its retry class and its `Display`/`Debug` texts.
- `types.rs`: request and response models, box states, query parameters, renderings.
- `wait.rs`: the wait options and the decision of each poll.
- `helpers.rs`: exec, text read/write and stop helpers.
- `duration.rs`, `text.rs`, `render.rs`: spans of time, characters and `Debug` layout.

`app/` sends the planned requests with reqwest, decodes JSON with serde, reads the
environment, and runs the retry and wait loops with tokio.
