# rs_rok_cli

The command-line and terminal side of rs-rok, a reverse tunnel to
Cloudflare, as a library verified with Verus, and the program around it.

- `src/` is the verified library: profiles and settings migration
  (`config`), Cloudflare accounts (`cloudflare_config`), tunnel
  configurations and TCP tokens (`tunnel`), the session file
  (`saved_tunnels`), the command line decisions (`cli`), and the state and
  key handling of the terminal interface (`tui`: forms and tunnel list in
  `app`, keys in `events`, actions and their outside effects in `dispatch`,
  remembering tunnels in `session`, log wrapping in `log_view`, popup
  geometry and display texts in `layout`). `text` holds the string helpers
  they share.
- `app/` is the `rsrok` program: argument parsing, files and environment
  variables, the terminal event loop and drawing, and the network side.
- `tests/` exercises the library on concrete values.
