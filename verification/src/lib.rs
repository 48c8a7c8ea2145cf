//! Runtime and compiler support library for a statically typed,
//! garbage-collector-free source language.
//!
//! The runtime half supplies the primitives that compiled code calls at
//! execution time: a growable operand stack ([`stack`]), a
//! continuation-passing trampoline that lets a computation suspend and
//! resume without growing the native call stack ([`cps`]), and a
//! type-erased value wrapper whose type tag is checked by identity
//! ([`any`]).
//!
//! The compiler half carries the intermediate representation of modules
//! ([`hir`]) with its source positions ([`position`]), the type inference
//! and interface extraction passes over it ([`hir_mir`], [`interface`]),
//! source-to-representation helpers ([`ast`], [`ast_hir`]), and the naming
//! scheme for the per-type memory-contract functions that code generation
//! emits ([`reference_count`]).
//!
//! Everything that talks to the world — the build driver, socket bindings,
//! the process environment — stays outside; the library decides and the
//! shell performs ([`llvm_command_finder`], [`tcp`]).

pub mod any;
pub mod ast;
pub mod ast_hir;
pub mod cps;
pub mod hir;
pub mod hir_mir;
pub mod interface;
pub mod llvm_command_finder;
pub mod name_map;
pub mod position;
pub mod reference_count;
pub mod stack;
pub mod tcp;
