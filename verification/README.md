# conmind

A sound visualiser: it captures what the machine plays, turns it into a
spectrum and drives a shader with the bass, mid and high levels.

- `src/` is the verified library (Verus): cutting captured samples into
  analysis frames and channel groups (`framing`), the frequency bands read
  from a spectrum (`spectrum`), the surface size, frame and format decisions
  (`surface`), the answers of the main loop to window events
  (`window_events`), the start-up decisions (`startup`) and the recognition
  of user folders in which the program keeps quiet (`special_dirs`).
- `app/` is the program around it: audio capture, the transform and all
  floating-point arithmetic, the GPU work, the window and the files.
- `tests/` runs the library on concrete values.
