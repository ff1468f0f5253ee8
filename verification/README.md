# ferritecad_app

The decisions of the FerriteCAD model viewer, proved with Verus, and the
window that carries them out.

- `src/` is the verified library:
  - `loads` – which answer to a request for a document may still reach the
    screen, what the status line says, and the account of a failed open;
  - `frames` – the one outstanding frame and the earliest timer;
  - `command_line` – the two commands the viewer understands;
  - `words` – what the document stores, said as sentences;
  - `input` – what a key, a button, a pointer question or a gesture is for;
  - `paths` – what a document is called on the status line.
- `app/` is the window: winit, egui, wgpu, the threads that read documents,
  and the conversions between the workspace's own crates and the library.
- `tests/` exercise the library on concrete values.
