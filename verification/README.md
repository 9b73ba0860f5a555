# hv_altar

Pieces of a small game-engine toolkit; the logic in `src/` is proved against
its contracts.

- `src/sync.rs`: `NoSharedAccess`, a wrapper that hands out its value only
  through `&mut` access. The crate holds no `unsafe` code, so the wrapper is
  not made `Sync` for every `T`: it is `Send` and `Sync` exactly when `T` is.
- `src/gui.rs`: the bookkeeping of the immediate-mode GUI renderer: which
  font texture version is uploaded, how large the GPU tessellation is and when
  it must grow, and the queue of meshes to draw (every queued mesh fits the
  tessellation).
- `src/bundle.rs`: the planning half of `#[derive(Bundle)]` for the ECS:
  field types and members, the bindings of tuple fields
  (`tuple_field_<index>`), the `Component` bound on type parameters, and which
  `Bundle` implementation to emit.
- `app/`: the parts that work on floats, the graphics context (`luminance`,
  `egui`) or token trees (`syn`, `quote`): the GPU renderer and the code
  emission of the derive, both driven by the library.

`app/` depends on `egui`, `nalgebra` and `anyhow` for the GUI types, the
vector and matrix types and the error type that the toolkit's umbrella crate
re-exports (its `gui` module and its prelude); that crate itself is not a
dependency. The GUI shader sources, the vertex semantics and the sRGB to
linear colour conversion are written out in `app/gui.rs` (the colour
conversion uses `egui::Rgba`).
