# n_top

The decision logic of N-Top, a macOS overlay that keeps an editable text
reminder above every window, with a pass-through mode, a tray menu and a global
hotkey. The logic is written in Verus and verified.

- `src/` — the verified library:
  - `mode` — edit and pass-through modes and what entering each does to the window;
  - `hover` — one step of the pointer poll in pass-through mode;
  - `geometry` — whether the overlay is visible on some monitor, where it is
    restored at start-up, which reported moves are kept;
  - `settings` — the persisted settings, loading with fallback to the backup,
    the steps of a safe save, hotkey changes, Dock policy;
  - `state` — the running state and the commands that change it;
  - `menu` — tray menu commands, tray clicks, window events;
  - `history` — snapshot names, which files the day's history shows or
    removes, how a snapshot's time is shown, ordering, de-duplication;
  - `text` — character-sequence helpers and the order on names.
- `tests/` — tests of the library on concrete values.
- `app/` — the Tauri shell: windows, tray, hotkey registration, file I/O,
  JSON, the pointer poll thread.
