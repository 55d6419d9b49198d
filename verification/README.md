# mtui

A terminal front-end for the music-tools bash scripts: a sidebar of
actions, a main pane with a file/directory browser for each action's
input, and a log pane that streams the running job's output.

- `src/` is the library, verified with Verus: the key map, what each key
  does to the application state (`app`), the browser and sidebar models
  (`ui`), the job books (`jobs`), the actions and the commands they build
  (`actions`, `process`), the recent-paths list (`state`), the askpass
  helper's location (`sudo`) and text and path helpers (`text`, `sort`).
- `app/` is the program around it: it draws with ratatui, reads keys with
  crossterm, spawns and signals child processes with tokio and nix, reads
  directories, and writes the state, log and askpass files.
- `tests/` runs the library on concrete values.
