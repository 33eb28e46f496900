# kyc_mir

The mid-level IR (MIR) of the kyc compiler, written in Verus: every
function in `src/` carries a contract that Verus proves.

- `src/mir.rs`: the MIR data model (types, values, instructions, blocks,
  functions, modules) with mathematical models of each; `src/mir_text.rs`:
  the text of types and operators in a MIR listing; `src/listing.rs`: the
  text of values, instructions, terminators, functions and modules, with
  the text of float constants taken from a table the caller supplies.
- `src/ownership.rs`, `src/collect.rs`, `src/dataflow.rs`,
  `src/borrow_analysis.rs`: the ownership analysis. A forward dataflow
  analysis over each function's control-flow graph finds the owned values
  live at each point; uses of moved values and conflicting mutable borrows
  are reported, an owned value is freed at the end of the block where its
  scope ends (still live there and not live on entry to any successor),
  and a store into a live local that still holds a value (written since
  its allocation, in its block or before) frees that value first.
  `src/laws.rs` states what the analysis guarantees as a whole.
- `src/lower/`: the helpers of lowering source code to MIR. Literal and
  type widening (`helpers`), names, kinds, sizes and mangled names of
  types (`types`), builtin return types (`builtins`), lowering of type
  annotations with struct definitions, type aliases and type-parameter
  substitution (`resolve`), generic instantiation and the type arguments
  of generic class instances (`generics`), closure
  parameter inference (`closures`), class fields and method resolution
  (`classes`), and the per-function lowering context with the blocks and
  instructions it emits for returns, match guards and nested array
  indexing (`ctx`).
  `src/lower/laws.rs` states the laws that tie these together, such as
  specialization of generic annotations agreeing with lowering under a
  substitution.
- `src/ast.rs`: the parts of the source AST that lowering reads.
- `src/name_table.rs`, `src/local_set.rs`, `src/text.rs`: a name-keyed
  table, a sorted set of locals, and decimal text.
- `app/lib.rs`: fills the table of float constants with Rust's float
  formatting and prints MIR listings through `src/listing.rs`.
