# png_sequence_export

The decisions behind exporting a recording's 3D view as a numbered PNG
sequence, and two per-instance helpers of the 3D line-strip visualizer,
verified with Verus.

- `src/png_export.rs`: the export state machine (`NativePngSequenceExport`),
  its frame requests and readbacks, and its model (`ExportState` and the step
  functions that every public method is proved to follow).
- `src/export_laws.rs`: what holds over all states and runs of the export.
- `src/frame_name.rs`, `src/frame_name_laws.rs`: the `frame_NNNNNN.png` file
  names, and that distinct frames get distinct names.
- `src/line_strips.rs`: `first_copied` and the "clamped to edge" per-instance
  value selection.
- `app/`: the viewer glue (timeline lookup, time cursor, directory creation,
  saving screenshots, logging), the raw-pointer access to the 3D view state,
  and the float-based line-strip visualizer.
