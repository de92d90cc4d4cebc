# DeepSeek Harness Launcher

A Windows tray launcher for the DeepSeek Harness (`dsh`): it starts `dsh web` without a
console, opens or re-focuses the Web UI in the browser, restarts the Harness once after an
unexpected exit, and updates both `dsh` (through the package manager that installed it) and
itself (from GitHub Releases).

## Layout

- `src/` is the library, verified with Verus. It holds every decision the launcher makes and
  every text it builds, each with a contract:
  - `text`, `wide`: character-level text helpers and UTF-16 encoding;
  - `version`: version labels and comparison;
  - `command`, `paths`: Windows path handling, command resolution and command lines;
  - `dsh`, `ownership`, `detect`: the `dsh` installation and the detection of the package
    manager that owns it, as a state machine driven by the caller's answers;
  - `registry`, `updater`: reading release information, trusted download addresses, and the
    replacement script;
  - `controller`: the tray launcher's reactions to ticks, commands, dialogs and background
    completions, as transitions that yield effects;
  - `process`, `logger`, `state`, `origin`, `tabs`: the Harness process record, log rotation,
    the state file, browser address matching and the tab cycle.
- `app/` is the Windows program around the library: the message loop, the tray icon, threads,
  processes, files, HTTP and UI Automation. It performs the effects and answers the questions
  that the library hands it.
- `tests/` runs the library on concrete values.

The laws the library proves (for example that the Harness is restarted automatically at most
once, that exiting is permanent, and that only the ten newest logs are kept) are public proof
functions next to the code they speak of.
