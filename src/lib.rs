//! A small expression language: a backtracking parser-combinator engine, a
//! recursive-descent grammar built from it, syntax trees, a tree-walking
//! evaluator, and a bytecode compiler with the stack machine that runs its
//! output.
pub mod parser;
pub mod arith;
pub mod interpreter;
pub mod vm;
pub mod compiler;
pub mod laws;
