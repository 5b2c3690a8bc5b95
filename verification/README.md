# attack_shark

Driver logic for the Attack Shark R1 and X11 mice, verified with Verus.

- `src/` is the verified library: the R1 and X11 configuration reports
  (`protocol`, `x11`), the settings and their checks (`config`), device
  recognition and report decoding (`device`), the command line's and the
  desktop interface's decisions (`cli`, `gui`), and text helpers (`text`).
- `app/` is the program around it: the command line, the configuration
  file, the HID transfers through `hidapi`, the battery monitor thread and
  the desktop commands.
- `tests/` runs the library on concrete values.
