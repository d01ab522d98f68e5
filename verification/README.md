# loop-timer

A repeating break reminder for Wayland desktops: a countdown that, when it
runs out, covers every monitor with a dark overlay showing a notification,
and starts over once the notification is confirmed (button, Escape or
Enter). A tray icon pauses and resumes (left click) and offers the time left,
a restart and an exit (right-click menu). The settings file
(`~/.config/loop-timer/config.toml`, or the path after `--config`/`-c`) is
written with defaults on first start and reloaded whenever it changes.

Layout:

- `src/` — the verified library (Verus): the timer's state and every change
  to it (`timer`), the properties that hold across those changes (`laws`),
  the settings and their defaults (`config`), the `MM:SS` text (`clock`),
  the tray's texts and commands (`tray`) and the overlay's size and rest
  countdown (`overlay`).
- `app/` — the program around it: GTK windows, the tray service, the
  settings file, the file watcher and the main loop.
- `tests/` — tests of the library on concrete values.
