# opsctl

Careful operations on a single server, as a verified library.

A registry declares the services of a server, their ports, domains, volumes,
snapshots and policies. The library

- checks the registry (`doctor`),
- plans a deploy, runs it step by step and resumes it from its journal (`deploy`),
- reads, judges and writes Caddy routes (`caddy`),
- compares the registry with what is observed, and carries the decisions about the
  differences: review, adoption, ignore rules and the cleanup workflow (`drift`),
- signs artifacts, keeps an audit chain, a trust store, bundles, checkpoints and
  archives (`evidence`),
- finds settings in the process and in environment files (`env_source`).

Every function of `src/` is verified with Verus: its `ensures` states the result over
spec functions on sequences and on the views of the library's types. What the library
promises as a whole stands in public proof functions whose names begin with `law_`.

## Layout

- `src/` decides and computes. It reads no file, runs no command and asks no clock:
  what it needs is handed to it as plain values, and it returns reports and what is
  to be done. A function that plans something has a `finish_` or `record_` function
  that takes the outcome.
- `src/outside.rs` holds the calls into other crates (Ed25519, SHA-256, JSON, RFC 3339),
  each behind one function with a trusted contract.
- `app/` is ordinary Rust around the library: files, commands, sockets, the
  environment and the clock, and the copies of documents that carry serde's derives.
- `tests/` runs the library on concrete values, with the other crates linked.

## Conventions

- A type `X` has a view `XView`; contracts speak of `x.deep_view()`.
- An exec function and the spec function that states its result have different
  names: the exec function is a verb (`refuse_document`), the spec function says what
  the result is (`document_refused`).
- Errors are texts. Each contract says which text comes for which input.
