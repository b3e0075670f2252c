# clipper2_sys

Rust side of a Clipper2 polygon-clipping binding, verified with Verus.

- `src/` — the verified library: integer and double path containers (`Path64`,
  `Paths64`, `PathD`, `PathsD`), the flat `PathsBlob*` buffer that crosses the native
  boundary and its encoding/decoding (with round-trip proofs), lazy path views and
  iterators, clip solutions, the `PolyTree64` hierarchy, the traversal state for
  preorder walks over a native polygon tree (with a proof that it emits the preorder),
  and the mappings between the public enums and the native ones.
  Double coordinates are carried as `f64` bit patterns, untouched.
- `app/` — what talks to C++ or computes on `f64`: the `cxx` bridge, the `Clipper64`,
  `ClipperD` and `ClipperOffset` engines, simplification, offsetting, area,
  point-in-polygon, Minkowski operations, integer/double conversion, float transforms,
  and the owners that release native trees.
- `tests/` — tests of the library.
