# manifold3d

A safe wrapper around the C API of the manifold mesh library.

- `src/` is the verified library: decoding of the library's status codes
  (`error`), its Boolean operation codes, validated parameters such as
  `EdgeSplitCount`, and how optional arguments and batch operations are handed
  to the library (`manifold`), with the integer value types they use (`types`).
- `app/` owns the handles of the C API and makes the foreign calls; it asks
  `src/` for every decision and holds the floating-point types.
- `tests/` runs the library on concrete values.
