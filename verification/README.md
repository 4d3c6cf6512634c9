# enigo

Cross platform input simulation: keys, text, mouse buttons, motion and
scrolling, as if they came from the hardware.

This crate is the part of the library that decides what to send, written in
Verus with its behaviour stated in contracts and proved:

- `input`, `keycodes`, `keysyms`: the vocabulary (keys, buttons, directions,
  errors, settings) and the keysym of each key.
- `simulate`: the `Keyboard`, `Mouse` and `Agent` interfaces; entering text
  and executing tokens are proved against a record of the calls made.
- `dsl`, `parser`: the tag language (`{+SHIFT}a{-SHIFT}`) and an early sketch
  of it.
- `keymap`: the spare keycodes of X11 and Wayland keyboards and the keysyms
  mapped to them; held keycodes are never unmapped.
- `x11`, `wayland`, `libei`, `xdg`, `xdo`, `xdo_early`, `keymap2`, `vk`: the
  decisions of the Linux backends.
- `protocols`: which established connection serves a request, and which keys
  are held.
- `win`, `macos`: the keys of a Windows and of a macOS keyboard, the Windows
  virtual-key codes, the macOS keycodes and event flags, and how the macOS
  backend enters a key.

`app/` holds what talks to the outside: a dispatcher over backends, printing
and reading the environment. The tests under `tests/` run the library on
concrete values.
