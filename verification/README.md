# dm_noesis

Binding layer to the Noesis GUI runtime, split in two:

- `src/` — the verified library (Verus): the `MouseButton`, `Key` and
  `RenderFlag` vocabularies and their native ordinals, the click and
  markup-extension handler traits with their closure adapters, the
  per-handler scratch table that keeps a resolved string's NUL-terminated
  copy alive for the native parser and the answer handed back to it, the
  C-string and UTF-8 handling at the
  native boundary, and the preparation of resource-dictionary chains.
- `app/` — the native side: the C ABI of the C++ shim, the owning
  `FrameworkElement` / `View` / `Renderer` handles, the event and
  markup-extension trampolines and registrations.
- `tests/` — tests of the library.
