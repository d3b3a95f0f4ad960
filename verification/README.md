# ggez (verified core)

The logic of a small 2D game framework, written in Verus and proved against
its contracts:

- `paths`, `vfs`, `zipfs`, `filesystem`: virtual file systems. Absolute
  resource paths are sanitized into relative ones that cannot leave their
  root; several places are searched in order and the first that answers is
  used; zip archives held in memory are read-only file systems.
- `conf`, `context`: the game's configuration and the builder of a context.
- `keyboard`, `input`: held keys and buttons, modifiers, key repeats.
- `coroutine`, `event`: coroutines driven one step at a time, and the
  decisions of the event loop.
- `graphics`: buffer arenas, meshes and batches, samplers and their cache,
  shader sources, text layouts, packed colors, `data:` URIs.
- `audio`, `logging`, `error`: sound data, log levels, errors.

`app/` holds what talks to the machine (the real file system, TOML files,
user directories, futures) and the floating-point types; the decisions of
the file systems and the configuration are the library's. `tests/` runs the library on concrete values.
