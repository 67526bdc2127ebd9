# emel_model

The model domain of an inference runtime: which architectures are known and
routed, a single-writer tensor catalog over caller-owned storage, the common
generation-contract builder, and the family actors (Llama, Gemma4, LFM2) that
drive it one request at a time.

Every function under `src/` is verified with Verus, except one trusted wrapper
(`data::reserve_exact`, around `Vec::try_reserve_exact`) whose contract Verus
takes on trust. Each request states its result and next state over an abstract
view of the actor, and the laws that relate requests (refused requests change
nothing, a released storage comes back as it was bound, a reset always
succeeds, a reset model is the freshly built one, block names parse back to
their index, ...) are proved as public proof functions next to the code they
speak of.

Layout:

- `src/architecture.rs` — architecture names, families and routes.
- `src/catalog.rs`, `src/catalog/ingest.rs` — the tensor catalog, its
  open-addressing name index, identities, and storage built from a parsed
  model file's tensor table.
- `src/generation.rs`, `src/generation/` — layer routes, stage audits, the
  quantized-path classification and the generation builder.
- `src/attention_family/`, `src/llama/`, `src/gemma4/`, `src/lfm2/` — family
  parameters, actors, and hyperparameter schedules (which keys are read, how,
  and where each value goes).
- `src/loader/hparams.rs` — what each typed metadata query outcome means for a
  hyperparameter access.
- `src/loader/machine.rs`, `src/loader/event.rs`, `src/loader/actor.rs` — the
  model loader's phase graph, its outcomes and sources, and the default tensor
  loader.
- `src/loader/residency.rs` — the decisions of the owned tensor loader. The
  loader itself is not here: it drives a tensor-residency layer and an I/O
  layer that this project does not include.
- `src/data.rs` — the fixed-capacity model data schema and its checked views.
- `app/lib.rs` — process-level glue: catalogs with process-unique owners and
  displayable forms of the errors and summaries.
- `app/loader.rs` — load requests with caller callbacks and the loop that runs
  each phase and asks the phase graph what follows.
- `app/hparams.rs` — hyperparameter loading against a metadata reader.

Floating-point model facts are held as the bit patterns of their 32-bit floats.
