# il2cpp

Renders the metadata of a Unity IL2CPP runtime (assemblies, classes, fields,
properties, methods) as a C#-like `dump.cs`, with the rendering verified by Verus.

- `src/model.rs`: what is read from the runtime, as plain values.
- `src/render.rs`: the text of each declaration and of the whole dump, each
  function with a contract that states its output exactly.
- `src/runtime.rs`: decisions on raw values read from the runtime (the byref
  bit, the text of a C string).
- `src/text.rs`: character-level helpers and the rendering of numbers.
- `src/laws.rs`: properties of the dump as a whole, proved.
- `src/tabledefs.rs`: the metadata attribute bits.
- `app/`: the native entry points, the IL2CPP API table resolved through xDL,
  the walk over the runtime that fills the model, and the writing of the file.
