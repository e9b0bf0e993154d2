# seven_guis

The logic of six small desktop programs, proved with Verus: a counter, a
temperature converter, a flight booker, a timer, a list editor and a circle
drawer with undo and redo.

- `src/` is the library. Each program's decisions are functions from what its
  window holds to what the window must do next, with contracts:
  `counter`, `temperature` (with `numeral` and `text` for reading and writing
  numbers), `flight`, `timer`, `crud`, and for the circle drawer `geometry`,
  `circle_map`, `history`, `canvas` and `circle_drawer`.
- `app/` holds the windows, built with `fltk`; it runs one program, named on
  the command line.
- `tests/` runs the library on concrete values.
