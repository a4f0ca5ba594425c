# voice-journal

Capture notes by voice on macOS: a global hotkey starts and stops a
TypeWhisper recording, and the on-device transcript is appended as a
timestamped bullet to one Markdown journal.

## Layout

- `src/` — the library, verified with Verus:
  - `engine` — the recording state machine (`Idle → Recording → Finalizing`,
    with `Error`), its transitions as pure functions of TypeWhisper's
    answers, which request each step sends, and `shutdown`.
  - `api` — the recorder API's records and errors, request URLs and
    headers, how HTTP failures map to errors, and when a request is retried.
  - `journal` — entry formatting and what an append writes.
  - `metrics` — today's counters and the tray's `Last:`/`Today:` lines.
  - `config`, `discovery`, `path` — configuration defaults and validation,
    `~` expansion, and where the configuration and discovery files live.
  - `check` — the `--check` report built from the checks' outcomes, and
    where a new journal goes.
  - `platform::macos` — tray states, texts and icons, hotkey parsing, and the
    daemon's decisions around the engine.
  - `clock`, `text` — time values and character-level helpers.
- `app/` — the program: argument handling, HTTP, files, and the macOS
  menu-bar daemon.
- `tests/` — tests of the library.
