# process_analyzer

The logic of a cross-platform process profiler, written in Verus with its
behaviour stated as contracts and proved:

- `src/import` — trace-format detection and the decoders for Linux `perf.data`,
  Windows ETL buffers and the native container's column batches.
- `src/normalizer` — the session clock that keeps timestamps from running
  backwards, stack interning, frame symbolication decisions, and the Arrow
  batch builder for normalized rows.
- `src/analysis` — finding severities, stall zoom windows, and the
  memory-growth scan (grouping, ordering and the longest run of growing
  running net allocation).
- `src/diff` — process, function, I/O and memory differences between two
  traces, ranked by magnitude.
- `src/sql` — the selection filters that restrict trace queries.
- `src/macos`, `src/windows` — the capture backends' parsers and the state
  machines that drive recording (start/stop, fallbacks, stack walks, Mach-O
  load-command walks, ETW session settings).

`app/` holds what Verus does not check: asynchronous file import, the
floating-point parts of findings and diffs, and types with serde and
error-trait derives. `tests/` exercises the library on concrete values.
