# tuyau

A Matrix federation homeserver that hosts a single room, written in Verus.

- `src/` is the verified library:
  - `ids`: room aliases, user ids, room ids and server names, parsed by ruma
    and held with type invariants; the server part of an alias, the host of a
    server name, fresh room ids.
  - `models`: the rows of the storage tables, reading and writing the setup
    row, and building and reading back timeline (PDU) rows.
  - `worker`: the room context (`Executor`) and the URL of a server's key
    endpoint.
  - `router`: the room directory query, the X-Matrix request authentication
    steps (`router::extract`) and the error replies (`router::reply`).
- `app/` is the program around it: sqlite storage through sea-orm, the axum
  server, the request extractor that performs the I/O between the
  authentication steps, and fetching signing keys with reqwest.
- `tests/` exercises the library, signing requests with ruma to check the
  authentication end to end.
