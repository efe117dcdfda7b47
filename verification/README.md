# wx_tir

The type checker of the WX language as a verified library. It takes a parsed
program and gives back the typed program: the pool of types, the tables of
functions, structs, enums, traits and impls, the checked bodies, and the
diagnostics.

- `src/` is the library. Every function in it is specified and proved with
  Verus. `program::build` checks a whole program. `state::Builder` holds the
  tables; its view `state::State` is what the contracts speak of.
- Some files state what holds of the type checker as a whole:
  `definitions.rs` (every definition is entered), `growth.rs` with `growth/`
  (nothing that is known is lost, a signature is resolved once), `nesting.rs`
  with `nesting/` (an expression ends in the scope where it began),
  `chains.rs` and `enclosing.rs` (names are looked for outwards, and every
  namespace and scope comes after the one around it),
  `matching.rs` (a match is undone by substitution), `recursion.rs` (a struct of
  infinite size is found), `poisoning.rs` (a poisoned type keeps all but its
  type parameters), `pool.rs` (what makes types changes nothing else),
  `renaming.rs` (the order in which types are made does not matter),
  `unions.rs` (merging a bound twice changes nothing), `failures.rs` (what fails
  is reported), `rules.rs` (the types of expressions) and `laws.rs` (names,
  types, bounds, coercions, matches, uses and impls).
- `src/interner.rs` holds the names in `string_interner`; the contracts of the
  functions that call it are believed, not proved.
- `app/` writes the diagnostics out as text for `codespan_reporting`.
- `tests/` runs the library on whole programs.
