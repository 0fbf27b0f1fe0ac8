# IL4IL

An intermediate language for intermediate languages: a register-based bytecode in SSA form, with its binary format,
validation, disassembly to text, and an assembler for its text form. The functions of the library are verified with
Verus against contracts over mathematical models of its types, except a few small wrappers around calls into std and
`rustc-hash` (the character classes `char::is_alphabetic` and `char::is_alphanumeric`, UTF-8 decoding, `String::push`,
the `Debug` form of a string, and the hash maps of the symbol lookup), whose contracts are trusted and say in their doc
comments what they claim.

## Layout

- `src/integer.rs`, `src/identifier.rs`, `src/versioning.rs`, `src/type_system.rs`, `src/index.rs`,
  `src/instruction/`, `src/function.rs`, `src/symbol.rs`, `src/module/`: the in-memory representation of modules.
- `src/binary/`: reading and writing the binary format. Every type that can be written states when reading gives it
  back, and `binary::module::lemma_module_round_trip` proves that a module is read back from the bytes written for it
  whenever the module can be written at all (each length, count and type index fits in 28 bits) and its format version
  is one that the reader supports. Its entries must also be well formed as their own types keep them: types are valid
  (integer widths from 1 to 256, a 1-bit integer unsigned, float widths of 16 to 256 bits), identifiers are non-empty
  and hold no NUL, and the result count of a signature, like the input count of a block, is at most its number of
  types. No other module is excluded.
- Errors of the binary reader carry the kind of error and the file offset of the item that could not be read, which
  the contract of each reading function fixes. The reader keeps no stack of named locations around an error, so there
  is no step that saves a file offset for such a stack and no list of locations on an error.
- `src/validation/`: checks that the indices, symbols, values and instructions of a module are consistent; a
  validated module carries that fact as a type invariant. Module contents become one section for each kind of entry,
  and `validation::contents::lemma_contents_round_trip` proves that gathering those sections gives the entries back.
- `src/disassemble/`: prints a module in the assembly text form.
- `src/assembly/`: the lexer, the node and tree parsers, and the assembler for the text form, with the errors they
  report and where they report them.
- `src/playground.rs`: an assembler session that keeps the last module assembled.
- `src/run.rs`: splits the interpreter's command line at `--`.
- `app/main.rs`: the interpreter's entry point, which reads the command line and parses its options.
- `tests/`: tests that run the library on concrete inputs.
