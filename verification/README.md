# giza_benchmark

A harness that benchmarks zero-knowledge machine-learning frameworks (Orion
programs on the Cairo VM proved with platinum-prover, and EZKL models), with
its logic written in Verus and proved.

- `src/` is the verified library:
  - `args` reads the arguments of a Cairo program from text
    (space-separated decimal numbers, `[`…`]` around arrays);
  - `felt` holds field elements and the call that parses a decimal number;
  - `layout` maps layout names to layouts;
  - `run_config` derives the VM configuration and the files a run writes;
  - `proof_file` lays out and splits proof files;
  - `commands` builds the EZKL and platinum-prover command lines;
  - `pipeline` decides, stage by stage, how a benchmark proceeds;
  - `metrics`, `system_metrics` take the time and memory measurements;
  - `table` lays out the metrics tables.
- `app/` is the program around it: command line, files, processes, the
  Cairo VM run, proof generation and the printing of floating-point times.
- `tests/` runs the library on concrete values.
