# UBench (verified core)

UBench is an honest USB flash drive benchmark: direct I/O that bypasses the
OS cache, time-windowed tests, a discarded warm-up run, deterministic random
offsets, and a single 0-100 score (UBS) with a letter grade, in a report
signed with SHA-256.

## Layout

- `src/` — the library, verified with Verus:
  - `profile.rs` — the quick and full test profiles;
  - `score.rs` — reference targets and weights, the UBS aggregation, grades;
  - `prng.rs` — the XorShift64 offset generator and the random offsets;
  - `buffer.rs` — I/O buffers and their test pattern;
  - `runner.rs` — the runner's decisions: runs and warm-up, the time-window
    transfer loop, the work file, the tally of a profile;
  - `report.rs` — report records, device classification, the signature;
  - `device_info.rs` — parsing the device probe (trim, split, integers);
  - `cli.rs` — command-line decisions, drive lookup, the banner, the speed
    curve of the quality tests;
  - `html.rs`, `page.rs` — the two HTML report pages;
  - `summary.rs` — the text summary printed after a benchmark;
  - `text.rs` — character helpers and decimal formatting.
- `tests/` — tests of the library on concrete values.
- `app/` — the program: argument parsing, direct-I/O files, timing and the
  floating-point rates and sub-score curve, JSON, printing.
