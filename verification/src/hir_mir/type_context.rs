//! The registry a compilation of one module works against: its named
//! types, its record fields, and the name of the error type that error
//! propagation subtracts.

use vstd::prelude::*;

use crate::hir::ir::Module;
use crate::hir::types::{clone_record_elements, Record, RecordElement, Type};
use crate::name_map::NameMap;

verus! {

/// The type registry of one module compilation.
pub struct TypeContext {
    /// Every named type: record definitions under their names, aliases
    /// under theirs.
    pub types: NameMap<Type>,
    /// The fields of every record definition, by record name.
    pub records: NameMap<Vec<RecordElement>>,
    /// The name of the error type that `?` subtracts from its operand.
    pub error_type_name: String,
}

impl TypeContext {
    /// Builds the registry of `module`: one record type per type
    /// definition, one entry per alias, and the given error type name.
    pub fn new(module: &Module, error_type_name: &str) -> (context: TypeContext)
        ensures
            context.error_type_name@ == error_type_name@,
            forall|i: int|
                0 <= i < module.type_definitions@.len() ==> context.types.spec_get(
                    #[trigger] module.type_definitions@[i].name@,
                ) is Some,
    {
        let mut types: NameMap<Type> = NameMap::new();
        let mut records: NameMap<Vec<RecordElement>> = NameMap::new();

        let mut index: usize = 0;
        while index < module.type_definitions.len()
            invariant
                index <= module.type_definitions@.len(),
                forall|i: int|
                    0 <= i < index ==> types.spec_get(
                        #[trigger] module.type_definitions@[i].name@,
                    ) is Some,
            decreases module.type_definitions@.len() - index,
        {
            let definition = &module.type_definitions[index];
            types.insert(
                definition.name.clone(),
                Type::Record(
                    Record { name: definition.name.clone(), position: definition.position.clone() },
                ),
            );
            records.insert(definition.name.clone(), clone_record_elements(&definition.elements));
            index = index + 1;
        }

        let ghost defined = types;
        let mut alias_index: usize = 0;
        while alias_index < module.type_aliases.len()
            invariant
                alias_index <= module.type_aliases@.len(),
                forall|i: int|
                    0 <= i < module.type_definitions@.len() ==> defined.spec_get(
                        #[trigger] module.type_definitions@[i].name@,
                    ) is Some,
                forall|name: Seq<char>|
                    defined.spec_get(name) is Some ==> types.spec_get(name) is Some,
            decreases module.type_aliases@.len() - alias_index,
        {
            let alias = &module.type_aliases[alias_index];
            types.insert(alias.name.clone(), alias.type_.clone());
            alias_index = alias_index + 1;
        }

        TypeContext { types, records, error_type_name: error_type_name.to_owned() }
    }
}

} // verus!
