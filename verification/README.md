# cyrusc_internal

Support library of the Cyrus compiler, written in Verus: every function in
`src/` carries a contract that Verus proves.

- `src/abi/` — targets and their data layouts, ABI types and layouts, name
  mangling, and the x86-64 System V calling convention: classification of
  values into register classes and the lowering of arguments and return
  values.
- `src/cir/` — the compiler's intermediate types, the type context that
  interns them, and their sizes, alignments and field offsets.
- `src/const_eval.rs`, `src/const_eval/` — constant evaluation: operators on
  128-bit integers and booleans, and an evaluator that follows references to
  other constants, remembers their values and reports cycles; a folder that
  replaces constant operands by literals.
- `src/driver.rs` — the driver's decisions: the target a triple names and the
  entry file a project is built from.
- `src/compiler_options.rs` — compilation options, their defaults and names.
- `app/` — the driver's edges that read the host and the file system.

The `*_spec.rs` files hold most of the mathematical definitions the
contracts are stated over; the laws proved about them stand beside the
definitions they speak of, as public proof functions.
