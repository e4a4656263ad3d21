# syphon

Rust bindings for [Syphon](https://syphon.v002.info/), the macOS framework
for sharing video frames between applications.

- `src/` is the library. It holds the decisions the bindings make on plain
  values: pixel-format codes, error messages, the names of Syphon's classes
  and description keys, server lookup, the client's connection protocol (as
  a state machine driven by the caller), frame and surface-lock decisions,
  Metal device selection, the IOSurface pool, receiver state, and the
  planning of wgpu transfers (publishing, read-back, the BGRA to RGBA
  conversion shader with its sizes and uniforms).
- `app/` is the macOS front end: it performs what the library decides,
  through the Objective-C runtime, Metal, IOSurface and wgpu, and sequences
  the GPU work of each received or published frame (which calls are made in
  which order). Off macOS Syphon does not exist and its entry points report
  `NotAvailable`.
- `tests/` exercises the library on concrete values.
