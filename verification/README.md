# backend

The verified core of a file-sharing backend: folders that expire, files uploaded
to S3 in numbered parts, folder tokens signed as JWTs, a read-through cache with
one loader per key, and the replies of its gRPC API. It also holds the logic of
the two procedural macros of the project: the `Model` derive (the grammar of its
attribute, and the newtypes, input structs and constructor it plans and emits)
and the `service` attribute (trait bounds, return types, and the object-safe
`Dynamic` companion).

Layout:

- `src/` — the library, verified with Verus. Each module states what it computes
  in `requires`/`ensures` contracts; the laws that span several functions (one
  loader per key, cache keys that never collide, writes that clear every key a
  read may have cached, wire conversions that read back what they write, the
  numbering of an upload's parts, the stable order of completed parts, the cover
  of a bulk delete) are public proof functions beside them.
- `tests/` — tests of the library on concrete values, run with the outside crates
  linked.
- `app/` — the server's edges: reading the configuration, the clock, signing and
  reading tokens, the cross-origin layer, `tonic` statuses, and the cache rounds
  run against a storage. The gRPC service definitions and the clients of the
  object store, database, cache and message queue are not part of this build, so
  the server itself is not started there.
