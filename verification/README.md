# okoscope

Runtime observability for Kubernetes workloads: a node agent turns kernel
records into runtime events, batches them and streams them to a server, which
groups, stores and notifies on first occurrences.

This crate holds the logic of both sides, verified with Verus:

- `src/` — the library. Each module states its behaviour in `requires` /
  `ensures` contracts over spec-level models (`Seq`, `Map`, `int`), and the
  properties that span several calls stand as `pub proof fn lemma_*` items
  next to the functions they speak of. Calls into outside crates (uuid, sha2,
  hex, url, chrono, chacha20poly1305, rand, dashmap, lettre, tokio) go through
  small `#[verifier::external_body]` wrappers whose doc comments say what is
  assumed of them.
- `tests/` — ordinary Rust tests against the compiled library.
- `app/` — `okoscope-config-check`, a small command that reads an agent
  configuration file and the mail settings from the environment and checks
  them with the library.

Verify with Verus on `src/lib.rs`; build and test with Cargo.
