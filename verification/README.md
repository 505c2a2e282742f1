# tuitube

The verified core of a player for the terminal: it finds videos with `yt-dlp`, plays them with
`mpv`, and draws lists with thumbnails. What the program decides (what is laid out where, which
arguments go to the outside programs, how its state answers to keys, timers and finished tasks)
is stated in contracts and proved by Verus.

- `src/` is the library. `app` holds the state of the application and `session` what runs
  besides it. `actions` is about searches, tabs and channels, `tasks` about what is fetched or
  sent in the background, `player` about the running video, and `screens` about the other
  screens. The other modules are the parts that these are made of: the grid (`grid`), the picture
  (`video`, `geometry`, `display`), commands for the player (`mpv`), cookies, comments, downloads,
  hidden things, likes and subscriptions, settings.
- `tests/` runs the library on concrete values.
- `app/` surrounds it: the terminal, files, outside programs, the player and the tasks.

An action of the library takes the state and says what is to be done outside: it returns an order
(a search to run, a command to send, a file to fetch). What came of it goes back in by a second
function. Times are milliseconds, so a position of the player or a deadline is a whole number.

What the library takes from other crates stands behind a few functions whose contracts are
believed: the width of a text (`ratatui`), JSON (`serde_json`), a quoted TOML string (`toml`), and
from the standard library lower case, the `Debug` form of a text, and `String::push`.
