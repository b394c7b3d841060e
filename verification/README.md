# bloom

The verified core of Bloom, a hardware-accelerated media viewer.

- `src/cli.rs`: the parsed command line and the decision to borrow the
  parent's console before parsing (only for `-h`, `--help`, `-V`, `--version`
  after the program's name).
- `src/widgets/number_entry.rs`: the numeric entry field's state machine
  (idle, pending press, drag, text editing), its reactions to pointer events,
  the editor's focus and commit protocol, and the cursor and look it asks for.
- `src/widgets/loading_spinner.rs`: the spinner's durations and its animation
  (expanding and contracting phases on wall-clock time, the wrapping turn).

Each module ends with the proof functions that state the laws its operations
obey. `app/` holds what Verus does not check: clap's parsing of the process's
arguments, the Win32 console call, and the floating-point side of the widgets
(values, clamping, formatting, rotation per frame, arc angles).
