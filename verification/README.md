# batpet

A pixel-art desktop companion: a small purple bat that hangs from its perch,
breathes, blinks, watches the pointer and shies away when it comes too close.
There are two front ends: a terminal one drawn with half-block characters,
and a desktop window.

The decisions of both are a library verified with Verus:

- `src/terminal/`: the terminal companion. `bat` holds the bat's state and
  gaze, `animation` the wing-flap clock, `eyes` the pointer-to-gaze rule and
  pupil offsets, `app` the event handling, and `render` the pixel art, the
  renderer (which returns drawing operations and never redraws an unchanged
  scene) and the status line.
- `src/desktop/`: the desktop pet. `state` is the state machine of rest,
  reaction and flight, `visual` the layering of body poses, `idle` the
  seeded random generator and the blink cycle, `acting` the shy reaction,
  `flight` the flight poses, `rig` the cut-paper rig that moves whole
  logical pixels, `rendering` the sprite geometry, `window` the placement in
  the top-right corner of the monitor.

`app/` is the program around it: the terminal loop on crossterm, the desktop
window on Bevy, and the continuous (floating-point) motion that the library
does not model.

Run the terminal companion with `batpet`, the desktop one with
`batpet desktop` (add `--debug` for the debug overlay). The desktop window
reads its sprite sheet from `assets/bat/idle/bat_idle.png`.
