//! The public interface of a compiled module, as other modules see it:
//! its public type definitions and aliases and its public declarations.

use vstd::prelude::*;

use crate::hir::types::{Function, RecordElement, Type};
use crate::position::Position;

verus! {

/// A record type definition visible in an interface.
#[derive(Clone, Debug, PartialEq)]
pub struct TypeDefinition {
    pub name: String,
    pub original_name: String,
    pub elements: Vec<RecordElement>,
    pub open_: bool,
    pub public: bool,
    pub position: Position,
}

impl TypeDefinition {
    pub fn new(
        name: &str,
        original_name: &str,
        elements: Vec<RecordElement>,
        open_: bool,
        public: bool,
        position: Position,
    ) -> (definition: TypeDefinition)
        ensures
            definition.name@ == name@,
            definition.original_name@ == original_name@,
            definition.elements == elements,
            definition.open_ == open_,
            definition.public == public,
            definition.position == position,
    {
        TypeDefinition {
            name: name.to_owned(),
            original_name: original_name.to_owned(),
            elements,
            open_,
            public,
            position,
        }
    }
}

/// A type alias visible in an interface.
#[derive(Clone, Debug, PartialEq)]
pub struct TypeAlias {
    pub name: String,
    pub original_name: String,
    pub type_: Type,
    pub public: bool,
    pub position: Position,
}

impl TypeAlias {
    pub fn new(
        name: &str,
        original_name: &str,
        type_: Type,
        public: bool,
        position: Position,
    ) -> (alias: TypeAlias)
        ensures
            alias.name@ == name@,
            alias.original_name@ == original_name@,
            alias.type_ == type_,
            alias.public == public,
            alias.position == position,
    {
        TypeAlias {
            name: name.to_owned(),
            original_name: original_name.to_owned(),
            type_,
            public,
            position,
        }
    }
}

/// A declaration of a public function of a module.
#[derive(Clone, Debug, PartialEq)]
pub struct Declaration {
    pub name: String,
    pub original_name: String,
    pub type_: Function,
    pub position: Position,
}

impl Declaration {
    pub fn new(name: &str, original_name: &str, type_: Function, position: Position)
        -> (declaration: Declaration)
        ensures
            declaration.name@ == name@,
            declaration.original_name@ == original_name@,
            declaration.type_ == type_,
            declaration.position == position,
    {
        Declaration {
            name: name.to_owned(),
            original_name: original_name.to_owned(),
            type_,
            position,
        }
    }
}

/// The interface of one module.
#[derive(Clone, Debug, PartialEq)]
pub struct Module {
    pub type_definitions: Vec<TypeDefinition>,
    pub type_aliases: Vec<TypeAlias>,
    pub declarations: Vec<Declaration>,
}

impl Module {
    pub fn new(
        type_definitions: Vec<TypeDefinition>,
        type_aliases: Vec<TypeAlias>,
        declarations: Vec<Declaration>,
    ) -> (module: Module)
        ensures
            module.type_definitions == type_definitions,
            module.type_aliases == type_aliases,
            module.declarations == declarations,
    {
        Module { type_definitions, type_aliases, declarations }
    }
}

} // verus!
