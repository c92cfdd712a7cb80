# ewin

The model and text-layout logic of the ewin terminal text editor, written in Verus with its
behaviour stated in `requires` / `ensures` contracts and proved.

- `src/` is the verified library: display widths and cutting of text, newline handling,
  key bindings and commands, configuration and colours, file encodings and byte-order marks,
  XML/HTML indentation, tab completion of file names, the key-binding map, vertical and
  horizontal scrolling, the lines of a buffer and the edit commands (the selected range
  deleted first, then inserting, pasting, breaking rows, deleting, cutting, box rows and
  replacing) with their undo and redo, the mouse and the selections it makes, what part of
  the screen to draw again, the windows of the editor area, word-completion and edit
  decisions, the undo/redo history, and the editor's small state types.
  Calls into other crates (`unicode-width`, `encoding_rs`, `crossterm`, `colors-transform`,
  `ropey`, `std::path`) go through a few trusted wrappers, each documented with what its
  contract claims.
- `tests/` exercises the library on concrete values.
- `app/` is the program around it: command-line arguments, reading settings files with
  serde, file-system access, the terminal and its editing loop, and the floating-point
  scrollbar geometry.
