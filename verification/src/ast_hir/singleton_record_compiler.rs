//! Rewriting singleton-record references: a record type with no fields has
//! exactly one value, so a bare variable naming such a record stands for
//! its construction.

use vstd::prelude::*;

use crate::ast::ModulePath;
use crate::ast_hir::name_qualifier;
use crate::hir::ir::{
    clone_declarations, clone_foreign_declarations, clone_type_aliases,
    clone_type_definitions, same_declarations,
    same_foreign_declarations, same_type_aliases, same_type_definitions, ArithmeticOperation,
    BooleanOperation, Call, Definition, ElseBranch, EqualityOperation, Expression, If, IfList,
    IfType, IfTypeBranch, Lambda, Let, List, ListElement, Module, NotOperation, Operation,
    OrderOperation, RecordConstruction, RecordDeconstruction, RecordElement, RecordUpdate, Thunk,
    TryOperation, TypeCoercion, Variable,
};
use crate::hir::types::Record;
use crate::interface;
use crate::name_map::NameMap;

verus! {


/// Whether `expression` holds no variable that `names` binds: what the
/// rewriting guarantees of everything it hands back.
pub open spec fn free_of_bound_variables(
    expression: Expression,
    names: Seq<(String, String)>,
) -> bool
    decreases expression,
{
    match expression {
        Expression::Boolean(_) => true,
        Expression::Call(call) => {
            &&& free_of_bound_variables(*call.function, names)
            &&& forall|i: int|
                0 <= i < call.arguments@.len() ==> free_of_bound_variables(
                    #[trigger] call.arguments@[i],
                    names,
                )
        },
        Expression::If(if_) => free_of_bound_variables(*if_.condition, names)
            && free_of_bound_variables(*if_.then_, names) && free_of_bound_variables(
            *if_.else_,
            names,
        ),
        Expression::IfList(if_) => {
            &&& free_of_bound_variables(*if_.argument, names)
            &&& free_of_bound_variables(*if_.then_, names)
            &&& free_of_bound_variables(*if_.else_, names)
        },
        Expression::IfType(if_) => {
            &&& free_of_bound_variables(*if_.argument, names)
            &&& forall|i: int|
                0 <= i < if_.branches@.len() ==> free_of_bound_variables(
                    #[trigger] if_.branches@[i].expression,
                    names,
                )
            &&& match if_.else_ {
                Some(branch) => free_of_bound_variables(*branch.expression, names),
                None => true,
            }
        },
        Expression::Lambda(lambda) => free_of_bound_variables(*lambda.body, names),
        Expression::Let(let_) => free_of_bound_variables(*let_.bound_expression, names)
            && free_of_bound_variables(*let_.expression, names),
        Expression::List(list) => forall|i: int|
            0 <= i < list.elements@.len() ==> element_free_of_bound_variables(
                #[trigger] list.elements@[i],
                names,
            ),
        Expression::NoneLiteral(_) => true,
        Expression::Number(_) => true,
        Expression::Operation(operation) => match operation {
            Operation::Arithmetic(operation) => free_of_bound_variables(*operation.lhs, names)
                && free_of_bound_variables(*operation.rhs, names),
            Operation::Boolean(operation) => free_of_bound_variables(*operation.lhs, names)
                && free_of_bound_variables(*operation.rhs, names),
            Operation::Equality(operation) => free_of_bound_variables(*operation.lhs, names)
                && free_of_bound_variables(*operation.rhs, names),
            Operation::Not(operation) => free_of_bound_variables(*operation.expression, names),
            Operation::Order(operation) => free_of_bound_variables(*operation.lhs, names)
                && free_of_bound_variables(*operation.rhs, names),
            Operation::Try(operation) => free_of_bound_variables(*operation.expression, names),
        },
        Expression::RecordConstruction(construction) => forall|i: int|
            0 <= i < construction.elements@.len() ==> free_of_bound_variables(
                #[trigger] construction.elements@[i].expression,
                names,
            ),
        Expression::RecordDeconstruction(deconstruction) => free_of_bound_variables(
            *deconstruction.record,
            names,
        ),
        Expression::RecordUpdate(update) => {
            &&& free_of_bound_variables(*update.record, names)
            &&& forall|i: int|
                0 <= i < update.elements@.len() ==> free_of_bound_variables(
                    #[trigger] update.elements@[i].expression,
                    names,
                )
        },
        Expression::StringLiteral(_) => true,
        Expression::Thunk(thunk) => free_of_bound_variables(*thunk.expression, names),
        Expression::TypeCoercion(coercion) => free_of_bound_variables(*coercion.argument, names),
        Expression::Variable(variable) => crate::name_map::bound_value(names, variable.name@)
            is None,
    }
}

/// Whether a list element's expression holds no variable that `names`
/// binds.
pub open spec fn element_free_of_bound_variables(
    element: ListElement,
    names: Seq<(String, String)>,
) -> bool
    decreases element,
{
    match element {
        ListElement::Multiple(expression) => free_of_bound_variables(expression, names),
        ListElement::Single(expression) => free_of_bound_variables(expression, names),
    }
}

/// What a variable compiles to: a construction of the singleton record it
/// names, when it names one, and itself otherwise.
pub fn compile_variable(variable: &Variable, names: &NameMap<String>) -> (compiled: Expression)
    ensures
        match names.spec_get(variable.name@) {
            Some(record_name) => {
                &&& compiled is RecordConstruction
                &&& compiled->RecordConstruction_0.type_.name@ == record_name@
                &&& compiled->RecordConstruction_0.elements@.len() == 0
            },
            None => compiled == Expression::Variable(*variable),
        },
        free_of_bound_variables(compiled, names.entries()),
{
    match names.get(&variable.name) {
        Some(record_name) => Expression::RecordConstruction(
            RecordConstruction {
                type_: Record {
                    name: record_name.clone(),
                    position: variable.position.clone(),
                },
                elements: Vec::new(),
                position: variable.position.clone(),
            },
        ),
        None => Expression::Variable(variable.clone()),
    }
}

/// Rewrites every variable of `expression` with [`compile_variable`].
#[verifier::loop_isolation(false)]
fn transform_expression(expression: &Expression, names: &NameMap<String>) -> (transformed:
    Expression)
    ensures
        free_of_bound_variables(transformed, names.entries()),
    decreases *expression,
{
    match expression {
        Expression::Boolean(literal) => Expression::Boolean(literal.clone()),
        Expression::NoneLiteral(literal) => Expression::NoneLiteral(literal.clone()),
        Expression::Number(literal) => Expression::Number(literal.clone()),
        Expression::StringLiteral(literal) => Expression::StringLiteral(literal.clone()),
        Expression::Variable(variable) => compile_variable(variable, names),
        Expression::Call(call) => {
            let function = transform_expression(&call.function, names);
            let mut arguments: Vec<Expression> = Vec::with_capacity(call.arguments.len());
            let mut index: usize = 0;
            while index < call.arguments.len()
                invariant
                    index <= call.arguments@.len(),
                    forall|i: int|
                        0 <= i < arguments@.len() ==> free_of_bound_variables(
                            #[trigger] arguments@[i],
                            names.entries(),
                        ),
                decreases call.arguments@.len() - index,
            {
                arguments.push(transform_expression(&call.arguments[index], names));
                index = index + 1;
            }
            Expression::Call(
                Call {
                    function_type: call.function_type.clone(),
                    function: Box::new(function),
                    arguments,
                    position: call.position.clone(),
                },
            )
        },
        Expression::If(if_) => Expression::If(
            If {
                condition: Box::new(transform_expression(&if_.condition, names)),
                then_: Box::new(transform_expression(&if_.then_, names)),
                else_: Box::new(transform_expression(&if_.else_, names)),
                position: if_.position.clone(),
            },
        ),
        Expression::IfList(if_) => Expression::IfList(
            IfList {
                type_: if_.type_.clone(),
                argument: Box::new(transform_expression(&if_.argument, names)),
                first_name: if_.first_name.clone(),
                rest_name: if_.rest_name.clone(),
                then_: Box::new(transform_expression(&if_.then_, names)),
                else_: Box::new(transform_expression(&if_.else_, names)),
                position: if_.position.clone(),
            },
        ),
        Expression::IfType(if_) => {
            let mut branches: Vec<IfTypeBranch> = Vec::with_capacity(if_.branches.len());
            let mut index: usize = 0;
            while index < if_.branches.len()
                invariant
                    index <= if_.branches@.len(),
                    forall|i: int|
                        0 <= i < branches@.len() ==> free_of_bound_variables(
                            #[trigger] branches@[i].expression,
                            names.entries(),
                        ),
                decreases if_.branches@.len() - index,
            {
                let branch = &if_.branches[index];
                branches.push(
                    IfTypeBranch {
                        type_: branch.type_.clone(),
                        expression: transform_expression(&branch.expression, names),
                    },
                );
                index = index + 1;
            }
            Expression::IfType(
                IfType {
                    name: if_.name.clone(),
                    argument: Box::new(transform_expression(&if_.argument, names)),
                    branches,
                    else_: match &if_.else_ {
                        Some(branch) => Some(
                            ElseBranch {
                                type_: branch.type_.clone(),
                                expression: Box::new(
                                    transform_expression(&branch.expression, names),
                                ),
                                position: branch.position.clone(),
                            },
                        ),
                        None => None,
                    },
                    position: if_.position.clone(),
                },
            )
        },
        Expression::Lambda(lambda) => Expression::Lambda(transform_lambda(lambda, names)),
        Expression::Let(let_) => Expression::Let(
            Let {
                name: let_.name.clone(),
                type_: let_.type_.clone(),
                bound_expression: Box::new(transform_expression(&let_.bound_expression, names)),
                expression: Box::new(transform_expression(&let_.expression, names)),
                position: let_.position.clone(),
            },
        ),
        Expression::List(list) => {
            let mut elements: Vec<ListElement> = Vec::with_capacity(list.elements.len());
            let mut index: usize = 0;
            while index < list.elements.len()
                invariant
                    index <= list.elements@.len(),
                    forall|i: int|
                        0 <= i < elements@.len() ==> element_free_of_bound_variables(
                            #[trigger] elements@[i],
                            names.entries(),
                        ),
                decreases list.elements@.len() - index,
            {
                let element = match &list.elements[index] {
                    ListElement::Multiple(element) => ListElement::Multiple(
                        transform_expression(element, names),
                    ),
                    ListElement::Single(element) => ListElement::Single(
                        transform_expression(element, names),
                    ),
                };
                elements.push(element);
                index = index + 1;
            }
            Expression::List(
                List { type_: list.type_.clone(), elements, position: list.position.clone() },
            )
        },
        Expression::Operation(operation) => Expression::Operation(
            match operation {
                Operation::Arithmetic(operation) => Operation::Arithmetic(
                    ArithmeticOperation {
                        operator: operation.operator,
                        lhs: Box::new(transform_expression(&operation.lhs, names)),
                        rhs: Box::new(transform_expression(&operation.rhs, names)),
                        position: operation.position.clone(),
                    },
                ),
                Operation::Boolean(operation) => Operation::Boolean(
                    BooleanOperation {
                        operator: operation.operator,
                        lhs: Box::new(transform_expression(&operation.lhs, names)),
                        rhs: Box::new(transform_expression(&operation.rhs, names)),
                        position: operation.position.clone(),
                    },
                ),
                Operation::Equality(operation) => Operation::Equality(
                    EqualityOperation {
                        type_: operation.type_.clone(),
                        operator: operation.operator,
                        lhs: Box::new(transform_expression(&operation.lhs, names)),
                        rhs: Box::new(transform_expression(&operation.rhs, names)),
                        position: operation.position.clone(),
                    },
                ),
                Operation::Not(operation) => Operation::Not(
                    NotOperation {
                        expression: Box::new(transform_expression(&operation.expression, names)),
                        position: operation.position.clone(),
                    },
                ),
                Operation::Order(operation) => Operation::Order(
                    OrderOperation {
                        operator: operation.operator,
                        lhs: Box::new(transform_expression(&operation.lhs, names)),
                        rhs: Box::new(transform_expression(&operation.rhs, names)),
                        position: operation.position.clone(),
                    },
                ),
                Operation::Try(operation) => Operation::Try(
                    TryOperation {
                        type_: operation.type_.clone(),
                        expression: Box::new(transform_expression(&operation.expression, names)),
                        position: operation.position.clone(),
                    },
                ),
            },
        ),
        Expression::RecordConstruction(construction) => {
            let mut elements: Vec<RecordElement> = Vec::with_capacity(construction.elements.len());
            let mut index: usize = 0;
            while index < construction.elements.len()
                invariant
                    index <= construction.elements@.len(),
                    forall|i: int|
                        0 <= i < elements@.len() ==> free_of_bound_variables(
                            #[trigger] elements@[i].expression,
                            names.entries(),
                        ),
                decreases construction.elements@.len() - index,
            {
                let element = &construction.elements[index];
                elements.push(
                    RecordElement {
                        name: element.name.clone(),
                        expression: transform_expression(&element.expression, names),
                        position: element.position.clone(),
                    },
                );
                index = index + 1;
            }
            Expression::RecordConstruction(
                RecordConstruction {
                    type_: construction.type_.clone(),
                    elements,
                    position: construction.position.clone(),
                },
            )
        },
        Expression::RecordDeconstruction(deconstruction) => Expression::RecordDeconstruction(
            RecordDeconstruction {
                type_: deconstruction.type_.clone(),
                record: Box::new(transform_expression(&deconstruction.record, names)),
                element_name: deconstruction.element_name.clone(),
                position: deconstruction.position.clone(),
            },
        ),
        Expression::RecordUpdate(update) => {
            let mut elements: Vec<RecordElement> = Vec::with_capacity(update.elements.len());
            let mut index: usize = 0;
            while index < update.elements.len()
                invariant
                    index <= update.elements@.len(),
                    forall|i: int|
                        0 <= i < elements@.len() ==> free_of_bound_variables(
                            #[trigger] elements@[i].expression,
                            names.entries(),
                        ),
                decreases update.elements@.len() - index,
            {
                let element = &update.elements[index];
                elements.push(
                    RecordElement {
                        name: element.name.clone(),
                        expression: transform_expression(&element.expression, names),
                        position: element.position.clone(),
                    },
                );
                index = index + 1;
            }
            Expression::RecordUpdate(
                RecordUpdate {
                    type_: update.type_.clone(),
                    record: Box::new(transform_expression(&update.record, names)),
                    elements,
                    position: update.position.clone(),
                },
            )
        },
        Expression::Thunk(thunk) => Expression::Thunk(
            Thunk {
                type_: thunk.type_.clone(),
                expression: Box::new(transform_expression(&thunk.expression, names)),
                position: thunk.position.clone(),
            },
        ),
        Expression::TypeCoercion(coercion) => Expression::TypeCoercion(
            TypeCoercion {
                from: coercion.from.clone(),
                to: coercion.to.clone(),
                argument: Box::new(transform_expression(&coercion.argument, names)),
                position: coercion.position.clone(),
            },
        ),
    }
}

/// Rewrites every variable under a lambda.
fn transform_lambda(lambda: &Lambda, names: &NameMap<String>) -> (transformed: Lambda)
    ensures
        free_of_bound_variables(*transformed.body, names.entries()),
    decreases *lambda,
{
    Lambda {
        arguments: lambda.arguments.clone(),
        result_type: lambda.result_type.clone(),
        body: Box::new(transform_expression(&lambda.body, names)),
        position: lambda.position.clone(),
    }
}

/// Rewrites every reference to a singleton record — a public fieldless
/// record imported from another module, or a fieldless record defined here
/// — into the construction of that record's one value. The module keeps
/// its type definitions, aliases and declarations, and every definition
/// keeps its name and visibility.
pub fn compile(
    module: &Module,
    module_interfaces: &Vec<(ModulePath, interface::Module)>,
) -> (compiled: Module)
    ensures
        same_type_definitions(compiled.type_definitions@, module.type_definitions@),
        same_type_aliases(compiled.type_aliases@, module.type_aliases@),
        same_foreign_declarations(compiled.foreign_declarations@, module.foreign_declarations@),
        same_declarations(compiled.declarations@, module.declarations@),
        compiled.definitions@.len() == module.definitions@.len(),
        forall|i: int|
            0 <= i < module.definitions@.len() ==> {
                let compiled_definition = #[trigger] compiled.definitions@[i];
                let source = module.definitions@[i];
                &&& compiled_definition.name@ == source.name@
                &&& compiled_definition.original_name@ == source.original_name@
                &&& compiled_definition.foreign == source.foreign
                &&& compiled_definition.public == source.public
            },
{
    let mut names: NameMap<String> = NameMap::new();

    let mut interface_index: usize = 0;
    while interface_index < module_interfaces.len()
        invariant
            interface_index <= module_interfaces@.len(),
        decreases module_interfaces@.len() - interface_index,
    {
        let (path, interface_module) = &module_interfaces[interface_index];
        let mut definition_index: usize = 0;
        while definition_index < interface_module.type_definitions.len()
            invariant
                definition_index <= interface_module.type_definitions@.len(),
            decreases interface_module.type_definitions@.len() - definition_index,
        {
            let definition = &interface_module.type_definitions[definition_index];
            if definition.elements.len() == 0 && definition.public {
                names.insert(
                    name_qualifier::qualify(path, definition.original_name.as_str()),
                    definition.name.clone(),
                );
            }
            definition_index = definition_index + 1;
        }
        interface_index = interface_index + 1;
    }

    let mut definition_index: usize = 0;
    while definition_index < module.type_definitions.len()
        invariant
            definition_index <= module.type_definitions@.len(),
        decreases module.type_definitions@.len() - definition_index,
    {
        let definition = &module.type_definitions[definition_index];
        if definition.elements.len() == 0 && !definition.external {
            names.insert(definition.original_name.clone(), definition.name.clone());
        }
        definition_index = definition_index + 1;
    }

    let mut definitions: Vec<Definition> = Vec::with_capacity(module.definitions.len());
    let mut index: usize = 0;
    while index < module.definitions.len()
        invariant
            index <= module.definitions@.len(),
            definitions@.len() == index,
            forall|i: int|
                0 <= i < index ==> {
                    let compiled_definition = #[trigger] definitions@[i];
                    let source = module.definitions@[i];
                    &&& compiled_definition.name@ == source.name@
                    &&& compiled_definition.original_name@ == source.original_name@
                    &&& compiled_definition.foreign == source.foreign
                    &&& compiled_definition.public == source.public
                },
        decreases module.definitions@.len() - index,
    {
        let definition = &module.definitions[index];
        definitions.push(
            Definition {
                name: definition.name.clone(),
                original_name: definition.original_name.clone(),
                lambda: transform_lambda(&definition.lambda, &names),
                foreign: definition.foreign,
                public: definition.public,
                position: definition.position.clone(),
            },
        );
        index = index + 1;
    }

    Module {
        type_definitions: clone_type_definitions(&module.type_definitions),
        type_aliases: clone_type_aliases(&module.type_aliases),
        foreign_declarations: clone_foreign_declarations(&module.foreign_declarations),
        declarations: clone_declarations(&module.declarations),
        definitions,
        position: module.position.clone(),
    }
}

} // verus!
