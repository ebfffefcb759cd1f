# kuna_decomp

The configuration core of a decompiler, written in Verus: every function carries a
contract, and the contracts are proved.

## What it does

- **Options.** Over two hundred named options write switches and levels. The table of
  options, what each one writes and what a reset restores stand in one place. Options can
  also come in lists, read from a stream of elements, strictly or leniently.
- **Specifications.** A compiler specification declares the stack, global memory, sizes
  and calling conventions; a processor specification declares vector registers, volatile
  memory, symbols and registers with a known value.
- **Contexts.** What the analysis of one function reads of all this is gathered once.

## Layout

- `src/` is the library. `architecture.rs` holds the central type; `lib.rs` lists the
  modules.
- `app/` is ordinary Rust around it: the process environment, error reporting, and the
  loops that carry questions from the library to the engine, the data-type factory and the
  symbol table.
- `tests/` runs the library on concrete values.

## Conventions

Contracts speak of plain mathematical values: texts are sequences of characters, maps are
maps, a failure is its kind and its text. A function named `..._effect` or `..._result` is
the specification that an executable function is proved against. A proof function named
`law_...` states a property of the library as a whole.

Where a decision is made elsewhere, the library either takes its outcome as an argument or
returns the question. Reading a prototype model, for example, takes the answers given so
far and ends with a model, a failure or the next question.

Three functions of the standard library are trusted: the strict and the lossy reading of
bytes as text, and the quoted form of a text in one message.
