# bbkit

A command line modkit for Battle Brothers mods (set working, mod, export and game
directories; update, export, import and delete mods; open the game's log).

- `src/` is the verified library: the stored configuration and how updates merge
  into it (`config`), the decision each subcommand makes and the message it prints
  (`cli`), the per-file rules for packing and unpacking mods (`bundle`), text
  helpers (`text`), and the laws that tie them together (`laws`).
- `app/` is the program around it: argument parsing, `config.yml` reading and
  writing, archives, the decompiler tools and the system viewer.
