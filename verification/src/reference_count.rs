//! Names of the per-type memory-contract functions.
//!
//! For every compiled heap type, code generation emits four functions that
//! share one fixed cross-module calling convention: clone (a pointer-level
//! reference-count increment for boxed values), a clone variant over the
//! inline, unboxed representation, drop (decrement and free at zero), and
//! synchronize (the one explicit visibility barrier a value crossing
//! workers needs). Linking finds them by name; this module owns the naming
//! scheme, so that every compilation unit derives the same symbol for the
//! same type.

use vstd::prelude::*;
use vstd::string::StringExecFns;

verus! {

/// The symbol of the clone function generated for the record type `name`.
pub fn get_clone_function_name(name: &str) -> (function_name: String)
    ensures
        function_name@ == "mir:clone:"@ + name@,
{
    String::from_str("mir:clone:").concat(name)
}

/// The symbol of the clone variant that operates on the inline, unboxed
/// representation of the record type `name`.
pub fn get_clone_unboxed_function_name(name: &str) -> (function_name: String)
    ensures
        function_name@ == "mir:clone:unboxed:"@ + name@,
{
    String::from_str("mir:clone:unboxed:").concat(name)
}

/// The symbol of the drop function generated for the record type `name`.
pub fn get_drop_function_name(name: &str) -> (function_name: String)
    ensures
        function_name@ == "mir:drop:"@ + name@,
{
    String::from_str("mir:drop:").concat(name)
}

/// The symbol of the synchronize function generated for the record type
/// `name`.
pub fn get_synchronize_function_name(name: &str) -> (function_name: String)
    ensures
        function_name@ == "mir:synchronize:"@ + name@,
{
    String::from_str("mir:synchronize:").concat(name)
}

} // verus!
