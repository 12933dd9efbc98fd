# etcdrs

A client library for [etcd](https://etcd.io/) v3, with its logic verified by Verus.

## Layout

- `src/` — the verified library (`etcdrs`):
  - `ids`, `keys`, `keyconv`, `range`, `record`: identifiers, the byte order of keys, and the
    encoding of key ranges into etcd's `(key, range_end)` pairs.
  - `pb`, `convert`: the API messages as plain data, and their decoding into records and headers.
  - `ops/*`: one module per operation family (get, put, delete, list, transaction, watch,
    compact, lease, auth, user, role, cluster): request builders and reply decoders.
  - `status`, `errors`, `retry`: gRPC status codes, error classification, and the rules by which
    a failed call is replayed.
  - `cache/*`: the read cache — range specs, the sorted record store, and the state machine that
    decides which reads the cache serves and how watch events change it.
  - `lease_pool`: the bookkeeping of a pool of leases kept alive per TTL.
  - `metrics`, `driver`: request counting and the driver traits.
  - `endpoints`, `server_config`: reading connection strings, and configuring local etcd servers
    and clusters for tests.
- `tests/` — tests of the library.
- `app/` — the gRPC side: connections, the retry loop, watch and keep-alive streams, and the
  background tasks of the cache and the lease pool, all driven by the library's decisions.
