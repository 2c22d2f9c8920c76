# appstruct_codegen

The backend generator of appstruct, written in Verus. Given the application
model (`AppIr`: entities, fields, access rules, relations, workflows, commands,
queries and feature settings) it plans the files of a generated Rust backend
and proves, function by function, what text each file holds.

## Layout

- `src/ir.rs` — the application model.
- `src/artifact.rs`, `src/source.rs` — generated files, the rendering of a
  source behind its header, and embedded crate sources.
- `src/access.rs`, `src/policy.rs`, `src/guard_laws.rs`, `src/scope_laws.rs` —
  the access-policy compiler and the laws that relate the guards and query
  scopes it writes to the meaning of the policy.
- Entity modules: `models.rs` (database model), `endpoints.rs` (endpoint
  module), `list.rs`, `lookup.rs`, `aggregate.rs`, `query.rs`,
  `relation_filters.rs`, `collections.rs`, `write.rs`, `bulk.rs`,
  `workflow.rs`, `field_access.rs`, `authorize.rs`, `values.rs`,
  `expressions.rs`, `fields.rs`, `relations.rs`.
- Feature modules: `audit.rs`, `auth.rs`, `file.rs`, `jobs.rs`,
  `scheduling.rs`, `timing.rs`, `mail.rs`, `realtime.rs`, `activity.rs`,
  `report.rs`, `extensions.rs`, `operations.rs`, `runtime.rs`,
  `manifest.rs`, `billing.rs`.
- Plans: `plan.rs` (entity files, runs of entities, embedded runtime crate),
  `backend.rs` (the whole backend, authentication files), `plan_laws.rs`
  (relative paths, repeatability, and planning the entities in runs) and
  `readiness.rs` (whether an entity's inputs fit it, the precondition of its
  endpoint module).
- `app/` — plain Rust around the library: an error type with `Display` and
  `Error`, and entity planning spread over worker threads, one run of
  entities per thread.

## What the library takes as input

Some parts of the generator are not part of this library: the scalar-type
attributes of fields, input validation rules, workflow transition access
expressions, related query scopes, trash and restore scopes, startup code,
the OpenAPI module, the tenant and webhook modules, and the text of the file
templates and embedded crates. The functions that need them take them as
arguments (`EndpointInputs`, `BackendInputs`, `AuthTemplates`,
`RuntimeSources`, and the `scopes` of the list and aggregate endpoints), and
their contracts say exactly where each lands in the output.

Generated Rust is assembled as source text and printed through
`proc_macro2`: the text is lexed into a token stream, and the stream's
display follows the header, as a token stream built by `quote!` would print.
A negative integer literal, which the lexer would split into `-` and its
magnitude, is written behind a sign marker (`source::sign_marker`) that
printing turns back into `-`, so it prints as the single literal `quote!`
writes.
Template files and module lists are emitted after the header as they are
given, without a formatting pass.
