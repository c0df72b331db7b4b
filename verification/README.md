# gcloud_wasm

Google Cloud clients (authentication, Cloud Storage, Pub/Sub, Cloud Tasks, Secret Manager,
BigQuery) for WebAssembly components, with their logic verified by Verus.

## Layout

- `src/` — the verified library.
  - `text`, `json`: strings, sorting, joining, decimal numbers and JSON objects built by hand.
  - `external`: the calls into percent-encoding, base64, serde_json and rsa/sha2, each with
    the contract that the rest of the library relies on.
  - `token`, `cache`: access tokens and the per-scope token cache, with its laws.
  - `adc`, `auth`, `flow`: Application Default Credentials, the token requests (refresh
    token, service-account JWT, metadata server) and token acquisition as a state machine.
  - `http`, `api`: requests and responses as plain values, status checks and error messages.
  - `storage`, `pubsub`, `tasks`, `secretmanager`, `bigquery`: for each operation, the
    request it sends and the value its answer makes.
- `app/` — the unverified edge: clocks, environment, the credentials file, HTTP exchanges
  through `wstd`, JSON parsing with serde, and the loop that drives token acquisition.
- `tests/` — tests of the library on concrete values.
