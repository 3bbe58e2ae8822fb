# miniquad (configuration and headless backend)

A Verus library holding two parts of a small graphics crate:

- `src/conf.rs`: the context-creation configuration (`Conf`, `Platform`,
  `GlVersion`, `Icon`, ...) with contracts that state every default field;
  the default icon is stated to be the built-in one, whose pixels are not.
- `src/native/headless.rs`: the decisions of the headless EGL pbuffer backend:
  the attribute lists handed to EGL, the verdict on each setup call, the
  teardown order, the surface size, and the main loop's quit protocol, with
  its laws as proof functions, per step and over whole runs of the loop. `src/native/egl.rs` holds the EGL constants.

The EGL and OpenGL calls themselves, and the loop that drives them, are not
part of this crate. `app/` gives the two answers that are floating-point
numbers, and the debug forms of `Icon` and `Conf`. `tests/` exercises the library on concrete values.

The built-in icon's pixel data (the logo) is not among the sources, so
`Icon::miniquad_logo` returns the icon named `Icon::builtin`, and nothing is
stated of its pixels.
