# vectoramp

A verified core for a client of the VectorAmp public API, written in Verus.

The library (`src/`) decides everything a client sends and how it reads what
comes back, and Verus proves each decision against its contract:

- `datasets`, `ingestion`, `intelligence`, `schedules`, `secrets`: the
  request for every API operation (method, path, query, JSON body), with the
  defaults the API expects (SABLE index, inferred embedding dimensions,
  `top_k` defaults, pagination, dataset scopes);
- `sources`: the typed source builders and their generated default names;
- `errors`: status checks and the message extracted from an error body;
- `stream`: an incremental decoder of the server-sent-event answer stream;
- `client`: configuration, request headers and request URLs;
- `json`, `text`, `types`, `transport`: the JSON model, text helpers, the
  request and response types;
- `laws`: properties proved of the functions above taken together.

Calls into `url`, `urlencoding` and `mime_guess` stay in the library behind
small trusted wrappers whose contracts are documented where they stand.

`app/` is the asynchronous client around it: it sends the planned requests
with `reqwest`, reads files with `tokio`, and converts JSON with `serde`.
`tests/` exercises the library on concrete values.
