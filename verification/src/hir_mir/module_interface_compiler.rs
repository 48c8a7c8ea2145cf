//! Extracting the public interface of a module: what other modules may
//! see of its type definitions, aliases and definitions.

use vstd::prelude::*;

use crate::hir::ir::{Definition, Module};
use crate::hir::types::{clone_record_elements, same_record_elements, same_type};
use crate::hir_mir::error::CompileError;
use crate::hir_mir::type_extractor;
use crate::interface;

verus! {

/// The definitions of `definitions` that are public, in order.
pub open spec fn public_definitions(definitions: Seq<Definition>) -> Seq<Definition>
    decreases definitions.len(),
{
    if definitions.len() == 0 {
        Seq::empty()
    } else {
        let rest = public_definitions(definitions.drop_last());
        if definitions.last().public {
            rest.push(definitions.last())
        } else {
            rest
        }
    }
}

/// Whether `declaration` declares `definition`: same names, and the
/// declared function type is the definition's lambda signature.
pub open spec fn declaration_of(
    declaration: interface::Declaration,
    definition: Definition,
) -> bool {
    &&& declaration.name@ == definition.name@
    &&& declaration.original_name@ == definition.original_name@
    &&& declaration.type_.arguments@.len() == definition.lambda.arguments@.len()
    &&& forall|i: int|
        0 <= i < definition.lambda.arguments@.len() ==> same_type(
            #[trigger] declaration.type_.arguments@[i],
            definition.lambda.arguments@[i].type_,
        )
    &&& same_type(*declaration.type_.result, definition.lambda.result_type)
}

/// Compiles the interface of `module`: every type definition with its
/// visibility narrowed to "public and not imported", every alias
/// likewise, and one declaration per public definition.
pub fn compile(module: &Module) -> (compiled: Result<interface::Module, CompileError>)
    ensures
        compiled is Ok,
        ({
            let interface_module = compiled.unwrap();
            &&& interface_module.type_definitions@.len() == module.type_definitions@.len()
            &&& forall|i: int|
                0 <= i < module.type_definitions@.len() ==> {
                    let compiled_definition = #[trigger] interface_module.type_definitions@[i];
                    let source = module.type_definitions@[i];
                    &&& compiled_definition.name@ == source.name@
                    &&& compiled_definition.original_name@ == source.original_name@
                    &&& same_record_elements(compiled_definition.elements@, source.elements@)
                    &&& compiled_definition.open_ == source.open_
                    &&& compiled_definition.public == (source.public && !source.external)
                }
            &&& interface_module.type_aliases@.len() == module.type_aliases@.len()
            &&& forall|i: int|
                0 <= i < module.type_aliases@.len() ==> {
                    let compiled_alias = #[trigger] interface_module.type_aliases@[i];
                    let source = module.type_aliases@[i];
                    &&& compiled_alias.name@ == source.name@
                    &&& compiled_alias.original_name@ == source.original_name@
                    &&& same_type(compiled_alias.type_, source.type_)
                    &&& compiled_alias.public == (source.public && !source.external)
                }
            &&& interface_module.declarations@.len() == public_definitions(
                module.definitions@,
            ).len()
            &&& forall|i: int|
                0 <= i < interface_module.declarations@.len() ==> declaration_of(
                    #[trigger] interface_module.declarations@[i],
                    public_definitions(module.definitions@)[i],
                )
        }),
{
    let mut type_definitions: Vec<interface::TypeDefinition> = Vec::with_capacity(
        module.type_definitions.len(),
    );
    let mut index: usize = 0;
    while index < module.type_definitions.len()
        invariant
            index <= module.type_definitions@.len(),
            type_definitions@.len() == index,
            forall|i: int|
                0 <= i < index ==> {
                    let compiled_definition = #[trigger] type_definitions@[i];
                    let source = module.type_definitions@[i];
                    &&& compiled_definition.name@ == source.name@
                    &&& compiled_definition.original_name@ == source.original_name@
                    &&& same_record_elements(compiled_definition.elements@, source.elements@)
                    &&& compiled_definition.open_ == source.open_
                    &&& compiled_definition.public == (source.public && !source.external)
                },
        decreases module.type_definitions@.len() - index,
    {
        let definition = &module.type_definitions[index];
        type_definitions.push(
            interface::TypeDefinition {
                name: definition.name.clone(),
                original_name: definition.original_name.clone(),
                elements: clone_record_elements(&definition.elements),
                open_: definition.open_,
                public: definition.public && !definition.external,
                position: definition.position.clone(),
            },
        );
        index = index + 1;
    }

    let mut type_aliases: Vec<interface::TypeAlias> = Vec::with_capacity(module.type_aliases.len());
    let mut alias_index: usize = 0;
    while alias_index < module.type_aliases.len()
        invariant
            alias_index <= module.type_aliases@.len(),
            type_aliases@.len() == alias_index,
            forall|i: int|
                0 <= i < alias_index ==> {
                    let compiled_alias = #[trigger] type_aliases@[i];
                    let source = module.type_aliases@[i];
                    &&& compiled_alias.name@ == source.name@
                    &&& compiled_alias.original_name@ == source.original_name@
                    &&& same_type(compiled_alias.type_, source.type_)
                    &&& compiled_alias.public == (source.public && !source.external)
                },
        decreases module.type_aliases@.len() - alias_index,
    {
        let alias = &module.type_aliases[alias_index];
        type_aliases.push(
            interface::TypeAlias {
                name: alias.name.clone(),
                original_name: alias.original_name.clone(),
                type_: alias.type_.clone(),
                public: alias.public && !alias.external,
                position: alias.position.clone(),
            },
        );
        alias_index = alias_index + 1;
    }

    let mut declarations: Vec<interface::Declaration> = Vec::new();
    let mut definition_index: usize = 0;
    while definition_index < module.definitions.len()
        invariant
            definition_index <= module.definitions@.len(),
            declarations@.len() == public_definitions(
                module.definitions@.subrange(0, definition_index as int),
            ).len(),
            forall|i: int|
                0 <= i < declarations@.len() ==> declaration_of(
                    #[trigger] declarations@[i],
                    public_definitions(
                        module.definitions@.subrange(0, definition_index as int),
                    )[i],
                ),
        decreases module.definitions@.len() - definition_index,
    {
        proof {
            assert(module.definitions@.subrange(0, definition_index + 1 as int).drop_last()
                =~= module.definitions@.subrange(0, definition_index as int));
        }
        let definition = &module.definitions[definition_index];
        if definition.public {
            declarations.push(
                interface::Declaration {
                    name: definition.name.clone(),
                    original_name: definition.original_name.clone(),
                    type_: type_extractor::extract_from_lambda(&definition.lambda),
                    position: definition.position.clone(),
                },
            );
        }
        definition_index = definition_index + 1;
    }

    proof {
        assert(module.definitions@.subrange(0, module.definitions@.len() as int)
            =~= module.definitions@);
    }

    Ok(interface::Module { type_definitions, type_aliases, declarations })
}

} // verus!
