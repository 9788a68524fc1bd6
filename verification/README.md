# nrd

Vulkan bindings to NVIDIA's real-time denoisers (NRD) and rendering interface (NRI).

- `src/` is the verified library (Verus): native handles and their release
  (`handle`), the 32-bit element counts passed with slices (`count`), the answer
  of a final-state query (`snapshot`), and the default binding offsets (`binding`).
- `app/` holds the C++ bindings, generated by autocxx from the NRD/NRI headers at
  build time, and the wrapper types that make the native calls and take every
  decision around them from the library.
- `tests/` exercises the library.
