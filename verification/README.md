# joymapper

A game-controller to keyboard mapper for Windows: each XInput button, trigger
and stick direction can be mapped to one or more key combinations, kept in
named profiles (one JSON file per profile beside the program).

## Layout

- `src/` — the verified library (Verus). Every function there carries a
  contract and is proved:
  - `keys` — key names to virtual-key codes, chip labels, recorded tokens,
    key-event flags;
  - `engine` — the events an input's mapping produces on press and release,
    and one frame of the polling loop (`process_frame`);
  - `profile` — the profile store: startup choice, saving, new/rename/delete/
    import, recordings and slot edits, repairs of mapping tables;
  - `battery`, `icon`, `autostart`, `admin`, `ui` — battery readings and
    labels, the `.ico` reader, the task-scheduler decisions, UTF-16 buffers,
    and the window/tray decisions;
  - `text` — the character-sequence helpers shared by the parsers.
- `app/` — the program around it: the egui window, the polling threads,
  Win32/XInput calls, the registry, `schtasks`, sound, and the JSON files.
- `tests/` — tests of the library on concrete values.
