# sokoban_editor

A small Sokoban-style game built on bevy, with an imgui inspector that lists
marked entities, shows their reflected components and writes edits back.

- `src/` is the verified library:
  - `game`: grid positions, closeness, the win condition, movement keys,
    grid-to-pixel scaling;
  - `level`: the starting layout of the level;
  - `align`: rounding addresses up to power-of-two alignments;
  - `reflect`: inspector type data, the locked-axes list box and the editing
    of component bytes through widgets;
  - `entity`: snapshots of entities and components, reading them from a scan
    of the world, selecting, closing and deleting components, and the bytes
    written back;
  - `editor`: the editor window's event decisions and frame pacing.
- `app/` is the program: bevy systems, spawning, the Vulkan/imgui window and
  the float-valued drawing code, calling the library for every decision.
- `tests/` exercise the library on concrete values.
