# jcode_desktop

The model behind a retained-mode desktop UI, with every contract proved.

- `src/tree.rs`: the retained node tree. Nodes are stored under their
  identifiers. The tree keeps a list of dirty nodes, and every operation
  keeps the invariant that each node with a raised dirty flag is on that list.
- `src/render_cache.rs`, `src/glyph.rs`, `src/virtual_list.rs`, `src/ime.rs`:
  per-surface invalidation keys, glyph-atlas bookkeeping, virtual-list
  windows and input-method composition.
- `src/display.rs`, `src/text.rs`, `src/geometry.rs`, `src/prefs.rs`:
  display commands, font configuration and the values the renderer consumes.
  Coordinates and colour channels are stored as `f32` bit patterns.
- `src/hash.rs`: cache keys from hashable values.
- `app/`: the floating-point side: hit testing, themes and font scaling.
