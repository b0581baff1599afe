# d365_automate

A verified core for automating Dynamics 365 Finance & Operations: the OData /
Custom Service client layer, the X++ Metadata API client layer, a cross-domain
knowledge graph, and the decisions of an automation server built on them. The
functions in `src/` are verified by Verus against their contracts, except a few
trusted wrappers (marked `#[verifier::external_body]`) that make a single call
into std or tokio: lower-casing text, pushing a character, debug-quoting a
string, and creating, counting and taking permits of a tokio semaphore. Each
one's doc comment names the call and what its contract claims of it. The free
slots of a pool live in the semaphore, which other tasks share, so the pool
states only the bound tokio keeps on them; what a backend reports through the
`D365Client` trait is stated by that backend's own predicates, and the in-memory
backend states all of it.

## Layout

- `src/text.rs`, `src/json.rs`, `src/rank.rs` — character-level text helpers, a
  plain JSON model with its compact text form, and a stable descending ranking.
- `src/odata/` — errors and their codes, the Infolog parser, the filter
  mini-language, the curated service and entity catalogue, the in-memory
  backend, the transactional write path (commit only on positive Infolog
  confirmation), the service-metadata cache, the connection pool, credentials
  and their providers, and the request shaping and decisions of the live client
  (query building with company scoping, status mapping, token reuse).
- `src/meta/` — the X++ metadata model, connections, the in-memory metadata
  backend, and the addressing and payload mapping of the live Metadata API client.
- `src/graph/` — the knowledge-graph entities and the in-memory graph store.
- `src/server/` — tool argument defaults, tool error texts, write audit records,
  the Infolog report, prompt texts and the prompt, resource and tool catalogues,
  argument completion, server options, the seed corpus, and the guided write
  workflows (forms, replies, audit records).
- `src/connectors.rs` — the connector traits and their errors.
- `tests/` — tests of the library, run against the compiled crate.
- `app/` — runtime adapters: conversion to and from `serde_json`, the process
  environment, connection files, the HTTPS exchanges of the live clients, and
  the floating-point dashboard figures.

## Checking

Laws of the library are public proof functions named `law_*`; the rest of what
the library promises stands in the `ensures` clauses of its functions.
