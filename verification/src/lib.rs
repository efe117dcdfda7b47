//! Typed intermediate representation of the WX language: the logic that turns
//! a parsed program into resolved types, signatures and checked expressions.
//!
//! `program::build` checks a program in phases: it enters every definition
//! (`prescan`), resolves the signatures (`signatures`), builds the bodies
//! (`bodies`, `expressions`), and then looks at what is missing or unused
//! (`unused`). The executable `state::Builder` stands for the mathematical
//! `state::State`; each operation on the first is specified by a function of
//! the same kind on the second.

pub mod aggregates;
pub mod ast;
pub mod bindings;
pub mod blocks;
pub mod bodies;
pub mod calls;
pub mod candidates;
pub mod chains;
pub mod coerce;
pub mod control;
pub mod definitions;
pub mod diagnostics;
pub mod enclosing;
pub mod expressions;
pub mod failures;
pub mod generics;
pub mod growth;
pub mod implied;
pub mod interner;
pub mod laws;
pub mod list;
pub mod literal;
pub mod lookup;
pub mod matching;
pub mod members;
pub mod names;
pub mod nesting;
pub mod operators;
pub mod params;
pub mod paths;
pub mod poisoning;
pub mod pool;
pub mod prescan;
pub mod program;
pub mod recursion;
pub mod relate;
pub mod renaming;
pub mod reports;
pub mod resolve;
pub mod rules;
pub mod satisfy;
pub mod scope;
pub mod shape;
pub mod signatures;
pub mod span;
pub mod state;
pub mod substitute;
pub mod tables;
pub mod tir;
pub mod ty;
pub mod types;
pub mod typing;
pub mod unions;
pub mod unused;
