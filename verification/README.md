# apexscan

A network auditing toolkit whose core is verified with Verus.

- `src/` is the library, every function of it with a contract that Verus
  proves: packet construction and parsing with their checksums, port and
  address specifications, CIDR blocks, banner and service analysis, OS
  guesses, vulnerability lookup, header profiling, scan chaining rules,
  probe and reply decisions of the scanners and of host discovery, the
  timing phases, report layouts (XML, grepable, CSV, console) and the
  command-line options.
- `tests/` exercises the library on concrete values.
- `app/` is the program around it: argument parsing, sockets, waiting for
  replies, Python scripts, the clock, terminal colours and JSON.

Times are held as integers: round trips and probe send times in
microseconds, durations and time limits in milliseconds, CVSS scores in
tenths, confidences in percent.
