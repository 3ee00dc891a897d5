# winpls

A small single-window application framework on top of `winit` and `wgpu`.

- `src/` is the verified library. It holds the framework's decisions:
  - `event`: how a window event becomes an application event;
  - `input`: mouse buttons and keys;
  - `lifecycle`: what the framework does on each callback of the event loop,
    as a state machine that returns the effects to perform, with laws over
    any sequence of callbacks (the handler and the graphics backend are made
    once, the backend before the handler, nothing reaches the handler before
    it exists, and a close request only stops the loop if the handler lets
    it stand);
  - `surface`: the choice of the surface format and what happens after the
    next frame was asked for;
  - `conf`: the default configuration;
  - `fs`: decoding a file's bytes into text.
- `app/` runs the event loop, holds the window, the wgpu device and the
  global context, reads files, and performs the effects that the library
  asks for.
- `tests/` exercises the library on concrete values.
