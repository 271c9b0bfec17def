# orbit_cursor

The verified core of a desktop screen recorder: the state of a recording
session and its panels, the FFmpeg command lines that record and export,
file naming, export progress, audio alignment, camera frame handling and
the tray's behaviour, each with a contract proved by Verus.

- `src/` is the library, proved with Verus.
- `tests/` exercises it on concrete values.
- `app/` is the code around it that touches the disk and runs FFmpeg, and
  the serialized forms that the user interface exchanges.
