# wavbench

Tools for testing audio devices with WAV files: generate test signals
(sines, log sweeps, two-tone pairs, noise), analyze a processed recording
against its source, and compare a target and a candidate device over a whole
suite of recordings.

## Layout

- `src/` is the verified library. It holds everything the tools decide:
  the preset table and target selection, the file-name grammars of the test
  signals, the checks made before files are opened or compared, the ordered
  file-name sets and the exact matching of suite directories, the order in
  which suite tests run, the index arithmetic of the sweep analysis, the
  block schedules of the spectra, the fade envelope and noise generator of
  the signal generator, the report layout, and one state machine per command
  (`src/commands/`) that says what to load, analyze, write or print next.
  Every function carries a contract proved by Verus; the laws that relate
  several functions or steps are proof functions named `law_*`.
- `tests/` runs the library on concrete values.
- `app/` is the command-line program: clap parsing, WAV reading and writing
  with hound, the floating-point analyses (FFTs with realfft, tone fits,
  levels), JSON reports with serde, and the loops that drive the library's
  state machines.
