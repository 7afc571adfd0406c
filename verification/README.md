# ecosistema

A fox-and-rabbit cellular automaton on a 16×20 torus, with random mutations,
written in Verus.

- `src/` is the verified library: the board model (`modelo`), the neighbour
  count on the torus (`vecindad`), the per-cell rules (`reglas`), the random
  generator it draws from (`azar`), the board step and the random start
  (`tablero`), the totals and the end of a game (`recuento`), the double count of
  neighbours (`doble_conteo`), and the game's
  state machine with its menu controls (`juego`).
- `app/` is the window program: it maps clicks to controls, runs the turn timer,
  plays the music and draws the screens, and asks the library what to do.
- `tests/` runs the library on concrete boards.
