# shader_slang

Verified core of Rust bindings for the Slang shader compiler.

- `src/enums.rs` – the enumerations of the Slang API (type kinds, scalar types,
  stages, parameter categories, ...) with the numeric values the API uses for
  them, conversions in both directions and round-trip laws.
- `src/ids.rs` – profile and capability identifiers.
- `src/uuid.rs` – interface identifiers and the split of a 128-bit number into
  their fields.
- `src/shape.rs` – resource shapes as a set of flag bits, with set operations.
- `src/options.rs` – the list of compiler options a session or target carries.
- `src/desc.rs` – target and session descriptions.
- `src/result.rs` – how result codes, created objects and diagnostics become
  `Result`s.
- `app/` – the COM interfaces of the compiler (global session, session, module,
  component type, entry point, metadata, blob), which call into the native
  library through its bindgen bindings, and serde copies of the enumerations.
