//! The variable environment a module starts with: every declared or
//! defined function, bound to its function type.

use vstd::prelude::*;

use crate::hir::ir::Module;
use crate::hir::types::Type;
use crate::hir_mir::type_extractor;
use crate::name_map::NameMap;

verus! {

/// Collects the module-level variables: foreign declarations, then
/// declarations, then the module's own definitions, each under its name.
pub fn create_from_module(module: &Module) -> (variables: NameMap<Type>)
    ensures
        forall|i: int|
            0 <= i < module.definitions@.len() ==> variables.spec_get(
                #[trigger] module.definitions@[i].name@,
            ) is Some,
        forall|i: int|
            0 <= i < module.declarations@.len() ==> variables.spec_get(
                #[trigger] module.declarations@[i].name@,
            ) is Some,
{
    let mut variables: NameMap<Type> = NameMap::new();

    let mut index: usize = 0;
    while index < module.foreign_declarations.len()
        invariant
            index <= module.foreign_declarations@.len(),
        decreases module.foreign_declarations@.len() - index,
    {
        let declaration = &module.foreign_declarations[index];
        variables.insert(declaration.name.clone(), declaration.type_.clone());
        index = index + 1;
    }

    let mut declaration_index: usize = 0;
    while declaration_index < module.declarations.len()
        invariant
            declaration_index <= module.declarations@.len(),
            forall|i: int|
                0 <= i < declaration_index ==> variables.spec_get(
                    #[trigger] module.declarations@[i].name@,
                ) is Some,
        decreases module.declarations@.len() - declaration_index,
    {
        let declaration = &module.declarations[declaration_index];
        variables.insert(declaration.name.clone(), Type::Function(declaration.type_.clone()));
        declaration_index = declaration_index + 1;
    }

    let ghost declared = variables;
    let mut definition_index: usize = 0;
    while definition_index < module.definitions.len()
        invariant
            definition_index <= module.definitions@.len(),
            forall|i: int|
                0 <= i < module.declarations@.len() ==> declared.spec_get(
                    #[trigger] module.declarations@[i].name@,
                ) is Some,
            forall|name: Seq<char>|
                declared.spec_get(name) is Some ==> variables.spec_get(name) is Some,
            forall|i: int|
                0 <= i < definition_index ==> variables.spec_get(
                    #[trigger] module.definitions@[i].name@,
                ) is Some,
        decreases module.definitions@.len() - definition_index,
    {
        let definition = &module.definitions[definition_index];
        variables.insert(
            definition.name.clone(),
            Type::Function(type_extractor::extract_from_lambda(&definition.lambda)),
        );
        definition_index = definition_index + 1;
    }

    variables
}

} // verus!
