# resonant

A spatial soundscape editor: sound sources ("tracks") are placed on a
plane as discs of reach, a listener walks along waypoints, and each track's
volume follows the listener's distance.

- `src/` is the verified library. It holds the state machines and decisions
  of the editor: identifier generation, the looping and play/pause switches,
  the progress bar, a track's state and the effects it asks for, the
  soundscape (camera, track zones, selection, waypoint walk), the mouse
  gesture state machine of the canvas, the routing of messages inside a
  scene, and the audio registry keyed by BLAKE3 digest. Positions and
  scalars are type parameters, so the library carries the application's
  float values without computing with them.
- `app/` is the program around it: windows and drawing (iced), audio
  playback (kira), file dialogs (rfd), saving and loading (serde,
  MessagePack), logging, and the float geometry (distances, zoom, volume
  curve, the step of the listener's walk).
- `tests/` exercise the library on concrete values.
