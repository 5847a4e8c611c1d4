# Manim Studio

A Blender/Premiere-style editor for [Manim](https://www.manim.community/)
animations. Objects are placed in a viewport, animations are laid out on a
timeline, and the scene is turned into a Manim Python script that the `manim`
command line renders.

The editing rules, the script generator and the render plan form a library
verified with Verus; the window around it is ordinary Rust on egui.

## Layout

- `src/` — the verified library (`manim_studio`)
  - `scene.rs` — objects, animations, scenes: kinds and their tables, lookup,
    removal of an object with its animations
  - `history.rs` — the undo / redo history, with its laws
  - `studio.rs` — the editor state and its commands (undo, redo, copy, cut,
    paste, duplicate, add, delete, grab / scale / rotate modes), with their laws
  - `shortcuts.rs` — which commands the keys of a frame trigger
  - `codegen.rs` — the text of the generated script; the numbers in it are
    printed by the caller as each slot says
  - `render.rs` — the `manim` commands to try, their arguments, the messages,
    and where the video lands
  - `ids.rs` — identifiers from the wall clock
  - `text.rs` — escaping, identifiers, decimal and hexadecimal printing, joining
- `tests/` — tests of the library on concrete values
- `app/` — the program: the egui window, the floating-point preview and
  drawing, the keyboard and mouse, and running `manim`

Numbers in the library are of a type parameter `N`; the program uses `f32`.
