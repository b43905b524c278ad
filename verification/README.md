# lazarobox-img

An image optimizer with a command line and a terminal interface: it resizes
and re-encodes images, converts between formats, shows their facts, and reads
and edits their EXIF metadata (alt text, GPS position, AI markers).

The logic is a library verified with Verus:

- `src/text.rs`, `src/paths.rs`: text clean-up, decimal numbers, parsing, and
  file paths as text.
- `src/export.rs`, `src/policy.rs`, `src/inspector.rs`, `src/optimizer.rs`,
  `src/converter.rs`, `src/types/`: output paths, the skip policy, image facts
  and batch totals.
- `src/metadata/`: the metadata model, reading it from EXIF (`kamadak-exif`),
  plans that change it, and the edits written with `little_exif`.
- `src/app/`: the state of the terminal interface, the file browser, the
  controller and what each key means on each screen.
- `src/screens/`: what each screen shows, as lines of styled text.
- `src/update.rs`: reading the latest published version.

`app/` is the program around it: argument parsing, file and terminal I/O,
encoders, and the figures printed from floating-point values.
