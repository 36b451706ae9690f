# rambo

A memory-pressure guard for Linux desktops: it polls free RAM (and the
kernel's memory-pressure report), and when memory runs low it warns that the
first enabled application of a priority list that is running will be
stopped, then stops it unless the user spares it (which snoozes warnings).

- `src/` is the verified library (Verus): configuration and its repairs,
  process matching and target selection, the process ranking shown in the
  tray, the monitor's decisions, the tray icon and texts, the pressure-report
  reader, the bounded histories and the sound choices.
- `app/` is the program around it: command line, configuration file,
  notifications, signals, the tray service and the windows.
- `tests/` exercises the library on concrete values.

Notes on `app/`:

- The settings and history windows use eframe, egui, egui_plot and
  egui_dnd; `Cargo.toml` does not list them, so building the windows needs
  them added.
- The notification sounds (`warning.oga`, `kill.oga`) are read from
  `$XDG_DATA_HOME/rambo/sounds/` (usually `~/.local/share/rambo/sounds/`);
  install the clips there. Without them the notifications stay silent.
