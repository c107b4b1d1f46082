# anthropic_sdk

A client library for the Anthropic Messages API, written in Verus.

- `src/` is the verified library: shared API types (`types::shared`), the
  message-creation builder (`types::messages`), the HTTP client state with
  its beta-header table, URL building and error messages (`http::client`),
  the one-level JSON model used to find an error message (`http::json`),
  the Messages resource and the requests it sends (`resources::messages`),
  and the stream event types (`streaming::events`).
- `app/` holds the I/O around it: JSON shapes with serde, sending requests
  with reqwest, and the stream callback handlers.
- `tests/` exercises the library on concrete values.
