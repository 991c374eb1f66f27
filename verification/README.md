# freefly

The decision logic of a small free-flying camera demo, verified with Verus.

- `src/controls/` — the control bundle's registrations (which systems, under
  which names, after which others) with the proof that a dispatcher holding the
  input system accepts them; the input axes of the movement system; what one
  run of the rotation system does with the focus, the cursor and the events it
  reads.
- `src/states.rs` — the loading state (waits for the assets, then hands the
  loaded scene and info dialog to the playing state) and the playing state
  (quits on a close request, toggles the info dialog on escape, closes it from
  its button), with proofs that the cursor is hidden exactly while the dialog
  is closed and that the camera does not rotate while it is shown.
- `app/` — the game itself on the engine: reading input and events, floating
  point movement and rotation, loading assets, and carrying out the effects
  that the library decides.
