# vdo

Bindings to the Axis VDO (video capture) API, in two parts.

- `src/` is the verified library. It holds what the bindings decide: the VDO
  error codes and the `Error` type (`error`), the video formats and frame types
  with the numbers by which the C API names them (`format`), the checks on the
  strings and flags handed to the C API (`cstr`), and how the outcome of each call
  into the API becomes a `Result` (`call`). Every function there carries a
  contract that Verus proves.
- `app/` holds the objects that live in the C library (`Map`, `Stream`,
  `StreamSettings`, `Buffer`, `StandaloneBuffer` and `snapshot`). They are reached
  through raw pointers and `unsafe` calls into `vdo-sys`, `glib-sys` and
  `gobject-sys`, and they use the verified library for every decision.

`tests/` exercises the verified library on concrete values.
