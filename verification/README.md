# vera_serve

The rules of the Vera HTTP API server, proved with Verus.

The server answers `POST /v1/embeddings` (OpenAI format), `POST /v1/rerank` (Cohere/Jina format)
and `GET /v1/health`.

- `src/` is the verified library. Where the server has to load a model, wait for a lock, run a
  model or bind a socket, a function of the library takes an event and returns the action to take;
  everything that is decided in between has a contract.
  - `auth`: bearer tokens
  - `http`: what is read of a request's headers, and the refusals
  - `handlers`: the endpoints
  - `ranking`: the order of documents by score
  - `providers`: loading, sharing and dropping of models
  - `startup`, `serve`: how the server starts, and the `vera serve` command
  - `state`, `types`, `span`, `text`: the data they work on
- `tests/` runs the library on concrete values.
- `app/` is the server around the library: axum, tokio, serde, and the models of `vera_core`.

Proof functions whose names begin with `law_` state what holds of the server as a whole.
