# neon_cli

The logic of `neon`, a developer-environment CLI (doctor dashboard, repository
scaffold plans, and the `neon setup` steps), written in Verus with its
behaviour stated in `requires` / `ensures` contracts and proved.

- `src/` — the verified library: install plans for apps, packages and language
  toolchains; the repository scaffold plan; the doctor's data and reports;
  machine detection; the agent-config bootstrap decisions; shell and terminal
  preferences; git identities; docker, npm-token and diagnostics reports; the
  shell-profile wiring; and the Windows Terminal theme transform over a JSON
  model (`src/json.rs`).
- `tests/` — tests that run the compiled library.
- `app/` — the `neon` binary: argument parsing, processes, files, prompts, the
  terminal UI, and the serde forms of the library's types.

The library reads the home and local-data directories and the clock (to
expand `~/` and pick a background image); everything else it gets from its
arguments.
