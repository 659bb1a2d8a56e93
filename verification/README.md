# stylus_benchmark

Generates the WebAssembly text programs that benchmark single Stylus
operations. Every program is one module whose exported entry point runs a loop;
the loop body repeats one scenario's operations and adds their number to an
operations counter, and the loop stops once the counter reaches the total.

- `src/wat.rs`: the text every program shares (module header, entry point,
  loop head and tail), and the assembly of a program from it and a scenario's
  own parts. Contracts give the exact bytes written.
- `src/scenario.rs`: the scenarios, and which writer (with which instruction
  and value types) produces each scenario-specific part. Those writers are not
  part of this crate: a caller runs them and passes their output, with the
  number of operations written, as a `ScenarioWat`; `generate_wat` requires
  that the parts fit the scenario, and `generate_checked_wat` tests it.
- `src/decimal.rs`: decimal rendering of the loop's constants, proved to read
  back as the number written.
- `app/`: the command-line names of the scenarios and writing a program to
  `<Scenario>.wat`.
