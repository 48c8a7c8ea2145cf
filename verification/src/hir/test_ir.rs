//! Shorthands for building representation values in tests: a throwaway
//! position and constructors that fill the fields tests never care about.

use vstd::prelude::*;

use crate::hir::ir::{Definition, Lambda, TypeDefinition};
use crate::hir::types::RecordElement;
use crate::position::Position;

verus! {

/// A position for values that belong to no source file.
pub fn position() -> (position: Position)
    ensures
        position@.path == ""@,
        position@.line_number == 1,
        position@.column_number == 1,
        position@.line == ""@,
{
    Position::new("", 1, 1, "")
}

/// Builds a definition with no original name and no position of its own.
pub trait DefinitionFake: Sized {
    fn fake(name: &str, lambda: Lambda, public: bool) -> Self;
}

impl DefinitionFake for Definition {
    fn fake(name: &str, lambda: Lambda, public: bool) -> Definition {
        Definition::new(name, "", lambda, false, public, position())
    }
}

/// Builds a type definition with no original name and no position of its
/// own.
pub trait TypeDefinitionFake: Sized {
    fn fake(
        name: &str,
        elements: Vec<RecordElement>,
        open_: bool,
        public: bool,
        external: bool,
    ) -> Self;
}

impl TypeDefinitionFake for TypeDefinition {
    fn fake(
        name: &str,
        elements: Vec<RecordElement>,
        open_: bool,
        public: bool,
        external: bool,
    ) -> TypeDefinition {
        TypeDefinition::new(name, "", elements, open_, public, external, position())
    }
}

} // verus!
