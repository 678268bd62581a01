# masterpiece

The verified rules of the MasterPiece puzzle game's front end, written in Verus.

- `src/session.rs`: the screens and menus as a state machine. `Session::handle`
  answers a key, `Session::frame` the clock, `Session::blocks_done` the end of a
  game; each returns what the main loop is to do. Laws on the machine are proof
  functions beside it.
- `src/clock.rs`: the millisecond frame clock.
- `src/screens.rs`, `src/board.rs`, `src/draw.rs`: the list of drawing operations of
  every screen and of the playing field.
- `src/text.rs`: decimal rendering of counters.
- `app/main.rs`: the SDL2 program that reads events, performs the commands and
  executes the drawing operations. It uses the field (`puzzle::game::Grid`) and the
  high-score table (`scores::high_scores::ScoreMenu`) from two modules that this
  repository does not hold.
