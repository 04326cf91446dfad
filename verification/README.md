# TechNoir

A live-wallpaper engine for Windows: wallpapers are plugins (Luau code plus
WGSL shaders) shipped as ZIP packages, drawn with wgpu behind the desktop
icons, and managed from a tray icon.

## Layout

- `src/` — the verified library (Verus). It holds the engine's logic with
  contracts: the WGSL whitespace minifier, the pipeline descriptors and
  their defaults, packing (shader staging and naming), reading packages,
  choosing surface formats and modes, frame-acquisition decisions, screen
  placement and window class names, texture plans, audio sample picking,
  image decoding into texels, Luau compilation, the package file layout,
  and the reactions of the manager and wallpaper windows to messages.
  Calls into naga, zip, image, mlua (the Luau compiler), rapidhash, rand
  and std functions without a vstd specification go through small trusted
  wrappers. Their contracts state what the outside code's documentation
  states, or give its result a name when it is a function of the inputs
  alone; what they leave unsaid is written in their doc comments.
- `tests/` — tests of the library.
- `app/` — the program around the library: command line, file and window
  I/O, Win32, wgpu/vello/glyphon drawing, running Luau, serde forms of the
  manifest and pipeline types, and floating-point work.

Run `technoir pack <project> [output]` to pack a plugin project; without a
command the engine starts (Windows only).
