# xwin

A GLFW wrapper whose deciding logic is verified with Verus.

- `src/` is the verified library: GLFW codes and their typed values, errors,
  window creation hints, the message each window, monitor, input, clipboard
  and timer operation sends to GLFW's main thread and what it makes of the
  reply, the main thread's own decisions (creating a window, the main loop's
  next step, initialization), event decoding and the event channels. Every
  GLFW call is handed in as a closure, so each contract names the call and
  its arguments.
- `app/` runs it on GLFW: the C API, the main loop and its message channel,
  GLFW's callbacks, floating point operations (opacity, content scale, the
  cursor position, the timer in seconds, gamma), and handles that destroy
  their GLFW objects when dropped.
- `tests/` exercises the library with closures that stand in for GLFW.
