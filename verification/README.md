# screenshit

A screenshot and annotation tool: capture the screen (or open an image),
crop it, draw arrows, lines, freehand strokes, boxes, ellipses and text on
it, then save it or copy it to the clipboard. The library also holds an
installer that binds the PrintScreen key on GNOME and XFCE; the program does
not offer it on its command line yet.

## Layout

- `src/` — the verified library (Verus):
  - `history.rs` — the undo/redo history, with its laws (undo then redo
    restores, an edit forgets the redo stack, …).
  - `editor.rs` — the tools and the editor's decisions: what a finished drag
    commits, what the shortcuts of a frame do, when typed text is kept.
  - `crop.rs` — the image as an RGBA raster and cropping to a selection
    (through the `image` crate).
  - `gsettings.rs` — reading and writing gsettings string arrays, with the
    proof that a written list reads back unchanged.
  - `hotkey.rs` — the GNOME and XFCE installation plans, their run as a state
    machine, the manual instructions for other desktops.
  - `capture.rs` — the Linux screenshot tools to try, the step function that
    picks the first one that works, and the failure message.
  - `cli.rs` — help switch, window title, save-file name and format.
  - `command.rs`, `text.rs` — commands as plain values; whitespace, trimming,
    ASCII case and substring search over `Seq<char>`.
- `app/` — the program around it: the egui window and painting, the
  floating-point annotation geometry and rasterization, clipboard, file
  dialogs, running external commands.
- `tests/` — tests of the library.
