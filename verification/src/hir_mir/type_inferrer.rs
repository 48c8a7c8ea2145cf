//! Type inference over module definitions: filling every type slot the
//! front end leaves empty — call types, bound-expression types, branch
//! types — from the declared types of arguments, declarations and
//! definitions.

use vstd::prelude::*;

use crate::hir::analysis::type_canonicalizer;
use crate::hir::analysis::type_difference_calculator;
use crate::hir::analysis::union_type_creator;
use crate::hir::ir::{
    same_arguments, ArithmeticOperation, BooleanOperation, Call,
    Definition, ElseBranch, EqualityOperation, Expression, If, IfList, IfType, IfTypeBranch,
    Lambda, Let, List, ListElement, Module, NotOperation, Operation, OrderOperation,
    RecordConstruction, RecordDeconstruction, RecordElement, RecordUpdate, Thunk, TryOperation,
    TypeCoercion,
};
use crate::hir::ir::{
    clone_declarations, clone_foreign_declarations, clone_type_aliases, clone_type_definitions,
    same_declarations, same_foreign_declarations, same_type_aliases, same_type_definitions,
};
use crate::hir::types::{same_type, Function, Reference, Type, Union};
use crate::hir_mir::environment_creator;
use crate::hir_mir::error::CompileError;
use crate::hir_mir::type_context::TypeContext;
use crate::hir_mir::type_extractor;
use crate::name_map::NameMap;

verus! {

/// Whether every type slot of `expression` is filled: what inference
/// guarantees of everything it hands back.
pub open spec fn inferred_expression(expression: Expression) -> bool
    decreases expression,
{
    match expression {
        Expression::Boolean(_) => true,
        Expression::Call(call) => {
            &&& call.function_type is Some
            &&& inferred_expression(*call.function)
            &&& forall|i: int|
                0 <= i < call.arguments@.len() ==> inferred_expression(
                    #[trigger] call.arguments@[i],
                )
        },
        Expression::If(if_) => inferred_expression(*if_.condition) && inferred_expression(
            *if_.then_,
        ) && inferred_expression(*if_.else_),
        Expression::IfList(if_) => {
            &&& if_.type_ is Some
            &&& inferred_expression(*if_.argument)
            &&& inferred_expression(*if_.then_)
            &&& inferred_expression(*if_.else_)
        },
        Expression::IfType(if_) => {
            &&& inferred_expression(*if_.argument)
            &&& forall|i: int|
                0 <= i < if_.branches@.len() ==> inferred_expression(
                    #[trigger] if_.branches@[i].expression,
                )
            &&& match if_.else_ {
                Some(branch) => branch.type_ is Some && inferred_expression(*branch.expression),
                None => true,
            }
        },
        Expression::Lambda(lambda) => inferred_expression(*lambda.body),
        Expression::Let(let_) => {
            &&& let_.type_ is Some
            &&& inferred_expression(*let_.bound_expression)
            &&& inferred_expression(*let_.expression)
        },
        Expression::List(list) => forall|i: int|
            0 <= i < list.elements@.len() ==> inferred_list_element(#[trigger] list.elements@[i]),
        Expression::NoneLiteral(_) => true,
        Expression::Number(_) => true,
        Expression::Operation(operation) => match operation {
            Operation::Arithmetic(operation) => inferred_expression(*operation.lhs)
                && inferred_expression(*operation.rhs),
            Operation::Boolean(operation) => inferred_expression(*operation.lhs)
                && inferred_expression(*operation.rhs),
            Operation::Equality(operation) => operation.type_ is Some && inferred_expression(
                *operation.lhs,
            ) && inferred_expression(*operation.rhs),
            Operation::Not(operation) => inferred_expression(*operation.expression),
            Operation::Order(operation) => inferred_expression(*operation.lhs)
                && inferred_expression(*operation.rhs),
            Operation::Try(operation) => operation.type_ is Some && inferred_expression(
                *operation.expression,
            ),
        },
        Expression::RecordConstruction(construction) => forall|i: int|
            0 <= i < construction.elements@.len() ==> inferred_expression(
                #[trigger] construction.elements@[i].expression,
            ),
        Expression::RecordDeconstruction(deconstruction) => deconstruction.type_ is Some
            && inferred_expression(*deconstruction.record),
        Expression::RecordUpdate(update) => {
            &&& inferred_expression(*update.record)
            &&& forall|i: int|
                0 <= i < update.elements@.len() ==> inferred_expression(
                    #[trigger] update.elements@[i].expression,
                )
        },
        Expression::StringLiteral(_) => true,
        Expression::Thunk(thunk) => thunk.type_ is Some && inferred_expression(*thunk.expression),
        Expression::TypeCoercion(coercion) => inferred_expression(*coercion.argument),
        Expression::Variable(_) => true,
    }
}

/// Whether every type slot of a list element's expression is filled.
pub open spec fn inferred_list_element(element: ListElement) -> bool
    decreases element,
{
    match element {
        ListElement::Multiple(expression) => inferred_expression(expression),
        ListElement::Single(expression) => inferred_expression(expression),
    }
}

/// Whether every type slot under a lambda is filled.
pub open spec fn inferred_lambda(lambda: Lambda) -> bool {
    inferred_expression(*lambda.body)
}

/// Whether `inferred` is what inference makes of `source`: the same
/// definition, with its lambda's declared signature kept and its body
/// fully inferred.
pub open spec fn inferred_definition_of(inferred: Definition, source: Definition) -> bool {
    &&& inferred.name@ == source.name@
    &&& inferred.original_name@ == source.original_name@
    &&& inferred.foreign == source.foreign
    &&& inferred.public == source.public
    &&& same_arguments(inferred.lambda.arguments@, source.lambda.arguments@)
    &&& same_type(inferred.lambda.result_type, source.lambda.result_type)
    &&& inferred_lambda(inferred.lambda)
}

/// Infers the types of every definition of `module`: the module comes back
/// with the same type definitions, aliases and declarations, and with each
/// definition's body fully inferred under the module-level environment.
pub fn infer_types(module: &Module, context: &TypeContext) -> (inferred: Result<
    Module,
    CompileError,
>)
    ensures
        match inferred {
            Ok(inferred) => {
                &&& same_type_definitions(inferred.type_definitions@, module.type_definitions@)
                &&& same_type_aliases(inferred.type_aliases@, module.type_aliases@)
                &&& same_foreign_declarations(
                    inferred.foreign_declarations@,
                    module.foreign_declarations@,
                )
                &&& same_declarations(inferred.declarations@, module.declarations@)
                &&& inferred.definitions@.len() == module.definitions@.len()
                &&& forall|i: int|
                    0 <= i < module.definitions@.len() ==> inferred_definition_of(
                        #[trigger] inferred.definitions@[i],
                        module.definitions@[i],
                    )
            },
            Err(_) => true,
        },
{
    let mut variables = environment_creator::create_from_module(module);

    let mut definitions: Vec<Definition> = Vec::with_capacity(module.definitions.len());
    let mut index: usize = 0;
    while index < module.definitions.len()
        invariant
            index <= module.definitions@.len(),
            definitions@.len() == index,
            forall|i: int|
                0 <= i < index ==> inferred_definition_of(
                    #[trigger] definitions@[i],
                    module.definitions@[i],
                ),
        decreases module.definitions@.len() - index,
    {
        let definition = infer_definition(&module.definitions[index], &mut variables, context)?;
        definitions.push(definition);
        index = index + 1;
    }

    Ok(
        Module {
            type_definitions: clone_type_definitions(&module.type_definitions),
            type_aliases: clone_type_aliases(&module.type_aliases),
            foreign_declarations: clone_foreign_declarations(&module.foreign_declarations),
            declarations: clone_declarations(&module.declarations),
            definitions,
            position: module.position.clone(),
        },
    )
}

/// Infers one definition's body.
fn infer_definition(
    definition: &Definition,
    variables: &mut NameMap<Type>,
    context: &TypeContext,
) -> (inferred: Result<Definition, CompileError>)
    ensures
        final(variables).entries() == old(variables).entries(),
        match inferred {
            Ok(inferred) => inferred_definition_of(inferred, *definition),
            Err(_) => true,
        },
{
    let lambda = infer_lambda(&definition.lambda, variables, context)?;
    Ok(
        Definition {
            name: definition.name.clone(),
            original_name: definition.original_name.clone(),
            lambda,
            foreign: definition.foreign,
            public: definition.public,
            position: definition.position.clone(),
        },
    )
}

/// Infers a lambda's body under its argument bindings.
#[verifier::loop_isolation(false)]
fn infer_lambda(lambda: &Lambda, variables: &mut NameMap<Type>, context: &TypeContext) -> (inferred:
    Result<Lambda, CompileError>)
    ensures
        final(variables).entries() == old(variables).entries(),
        match inferred {
            Ok(inferred) => {
                &&& same_arguments(inferred.arguments@, lambda.arguments@)
                &&& same_type(inferred.result_type, lambda.result_type)
                &&& inferred.position == lambda.position
                &&& inferred_lambda(inferred)
            },
            Err(_) => true,
        },
    decreases *lambda,
{
    let scope = variables.len();
    let mut index: usize = 0;
    while index < lambda.arguments.len()
        invariant
            index <= lambda.arguments@.len(),
            variables.entries().len() >= scope,
            variables.entries().subrange(0, scope as int) == old(variables).entries(),
        decreases lambda.arguments@.len() - index,
    {
        let argument = &lambda.arguments[index];
        variables.insert(argument.name.clone(), argument.type_.clone());
        proof {
            assert(variables.entries().subrange(0, scope as int) =~= old(variables).entries());
        }
        index = index + 1;
    }

    let body = match infer_expression(&lambda.body, variables, context) {
        Ok(body) => body,
        Err(error) => {
            variables.truncate(scope);
            proof {
                assert(variables.entries() =~= old(variables).entries());
            }
            return Err(error);
        },
    };
    variables.truncate(scope);
    proof {
        assert(variables.entries() =~= old(variables).entries());
    }

    let arguments = lambda.arguments.clone();
    proof {
        assert forall|i: int| 0 <= i < lambda.arguments@.len() implies
            crate::hir::ir::same_argument(arguments@[i], lambda.arguments@[i]) by {
            if arguments@[i] == lambda.arguments@[i] {
                crate::hir::types::lemma_same_type_reflexive(lambda.arguments@[i].type_);
            }
        }
    }

    Ok(
        Lambda {
            arguments,
            result_type: lambda.result_type.clone(),
            body: Box::new(body),
            position: lambda.position.clone(),
        },
    )
}


/// Infers one expression: fills its own type slot, if it has one, from its
/// inferred pieces, and recurses into every piece under the bindings it
/// introduces. Inference never leaves a binding behind.
#[verifier::loop_isolation(false)]
fn infer_expression(
    expression: &Expression,
    variables: &mut NameMap<Type>,
    context: &TypeContext,
) -> (inferred: Result<Expression, CompileError>)
    ensures
        final(variables).entries() == old(variables).entries(),
        match inferred {
            Ok(inferred) => inferred_expression(inferred),
            Err(_) => true,
        },
    decreases *expression,
{
    match expression {
        Expression::Boolean(literal) => Ok(Expression::Boolean(literal.clone())),
        Expression::NoneLiteral(literal) => Ok(Expression::NoneLiteral(literal.clone())),
        Expression::Number(literal) => Ok(Expression::Number(literal.clone())),
        Expression::StringLiteral(literal) => Ok(Expression::StringLiteral(literal.clone())),
        Expression::Variable(variable) => Ok(Expression::Variable(variable.clone())),
        Expression::Call(call) => {
            let function = infer_expression(&call.function, variables, context)?;
            let function_type = type_extractor::extract_from_expression(
                &function,
                variables,
                context,
            )?;

            let mut arguments: Vec<Expression> = Vec::with_capacity(call.arguments.len());
            let mut index: usize = 0;
            while index < call.arguments.len()
                invariant
                    index <= call.arguments@.len(),
                    arguments@.len() == index,
                    variables.entries() == old(variables).entries(),
                    forall|i: int|
                        0 <= i < index ==> inferred_expression(#[trigger] arguments@[i]),
                decreases call.arguments@.len() - index,
            {
                let argument = infer_expression(&call.arguments[index], variables, context)?;
                arguments.push(argument);
                index = index + 1;
            }

            Ok(
                Expression::Call(
                    Call {
                        function_type: Some(function_type),
                        function: Box::new(function),
                        arguments,
                        position: call.position.clone(),
                    },
                ),
            )
        },
        Expression::If(if_) => {
            let condition = infer_expression(&if_.condition, variables, context)?;
            let then_ = infer_expression(&if_.then_, variables, context)?;
            let else_ = infer_expression(&if_.else_, variables, context)?;
            Ok(
                Expression::If(
                    If {
                        condition: Box::new(condition),
                        then_: Box::new(then_),
                        else_: Box::new(else_),
                        position: if_.position.clone(),
                    },
                ),
            )
        },
        Expression::IfList(if_) => {
            let argument = infer_expression(&if_.argument, variables, context)?;
            let argument_type = type_extractor::extract_from_expression(
                &argument,
                variables,
                context,
            )?;
            let list_type = match type_canonicalizer::canonicalize_list(
                &argument_type,
                &context.types,
            ) {
                Ok(Some(list_type)) => list_type,
                Ok(None) => {
                    return Err(CompileError::ListExpected(if_.position.clone()));
                },
                Err(error) => {
                    return Err(CompileError::Analysis(error));
                },
            };

            let scope = variables.len();
            variables.insert(
                if_.first_name.clone(),
                Type::Function(
                    Function {
                        arguments: Vec::new(),
                        result: Box::new((&*list_type.element).clone()),
                        position: if_.position.clone(),
                    },
                ),
            );
            variables.insert(
                if_.rest_name.clone(),
                Type::List(
                    crate::hir::types::List {
                        element: Box::new((&*list_type.element).clone()),
                        position: list_type.position.clone(),
                    },
                ),
            );
            let then_ = match infer_expression(&if_.then_, variables, context) {
                Ok(then_) => then_,
                Err(error) => {
                    variables.truncate(scope);
                    proof {
                        assert(variables.entries() =~= old(variables).entries());
                    }
                    return Err(error);
                },
            };
            variables.truncate(scope);
            proof {
                assert(variables.entries() =~= old(variables).entries());
            }
            let else_ = infer_expression(&if_.else_, variables, context)?;

            Ok(
                Expression::IfList(
                    IfList {
                        type_: Some((&*list_type.element).clone()),
                        argument: Box::new(argument),
                        first_name: if_.first_name.clone(),
                        rest_name: if_.rest_name.clone(),
                        then_: Box::new(then_),
                        else_: Box::new(else_),
                        position: if_.position.clone(),
                    },
                ),
            )
        },
        Expression::IfType(if_) => {
            let argument = infer_expression(&if_.argument, variables, context)?;

            let mut branches: Vec<IfTypeBranch> = Vec::with_capacity(if_.branches.len());
            let mut index: usize = 0;
            while index < if_.branches.len()
                invariant
                    index <= if_.branches@.len(),
                    branches@.len() == index,
                    variables.entries() == old(variables).entries(),
                    forall|i: int|
                        0 <= i < index ==> inferred_expression(
                            #[trigger] branches@[i].expression,
                        ),
                decreases if_.branches@.len() - index,
            {
                let branch = &if_.branches[index];
                let scope = variables.len();
                variables.insert(if_.name.clone(), branch.type_.clone());
                let branch_expression = match infer_expression(
                    &branch.expression,
                    variables,
                    context,
                ) {
                    Ok(branch_expression) => branch_expression,
                    Err(error) => {
                        variables.truncate(scope);
                        proof {
                            assert(variables.entries() =~= old(variables).entries());
                        }
                        return Err(error);
                    },
                };
                variables.truncate(scope);
                proof {
                    assert(variables.entries() =~= old(variables).entries());
                }
                branches.push(
                    IfTypeBranch { type_: branch.type_.clone(), expression: branch_expression },
                );
                index = index + 1;
            }

            let else_ = match &if_.else_ {
                Some(else_branch) => {
                    let argument_type = type_extractor::extract_from_expression(
                        &argument,
                        variables,
                        context,
                    )?;

                    let mut branch_types: Vec<Type> = Vec::with_capacity(if_.branches.len());
                    let mut type_index: usize = 0;
                    while type_index < if_.branches.len()
                        invariant
                            type_index <= if_.branches@.len(),
                            variables.entries() == old(variables).entries(),
                        decreases if_.branches@.len() - type_index,
                    {
                        branch_types.push(if_.branches[type_index].type_.clone());
                        type_index = type_index + 1;
                    }

                    let remaining = match union_type_creator::create(
                        &branch_types,
                        &if_.position,
                    ) {
                        Some(covered) => {
                            match type_difference_calculator::calculate(
                                &argument_type,
                                &covered,
                                &context.types,
                            ) {
                                Ok(Some(remaining)) => remaining,
                                Ok(None) => {
                                    return Err(
                                        CompileError::UnreachableCode(
                                            else_branch.position.clone(),
                                        ),
                                    );
                                },
                                Err(error) => {
                                    return Err(CompileError::Analysis(error));
                                },
                            }
                        },
                        None => argument_type,
                    };

                    let scope = variables.len();
                    variables.insert(if_.name.clone(), remaining.clone());
                    let else_expression = match infer_expression(
                        &else_branch.expression,
                        variables,
                        context,
                    ) {
                        Ok(else_expression) => else_expression,
                        Err(error) => {
                            variables.truncate(scope);
                            proof {
                                assert(variables.entries() =~= old(variables).entries());
                            }
                            return Err(error);
                        },
                    };
                    variables.truncate(scope);
                    proof {
                        assert(variables.entries() =~= old(variables).entries());
                    }

                    Some(
                        ElseBranch {
                            type_: Some(remaining),
                            expression: Box::new(else_expression),
                            position: else_branch.position.clone(),
                        },
                    )
                },
                None => None,
            };

            Ok(
                Expression::IfType(
                    IfType {
                        name: if_.name.clone(),
                        argument: Box::new(argument),
                        branches,
                        else_,
                        position: if_.position.clone(),
                    },
                ),
            )
        },
        Expression::Lambda(lambda) => {
            let inferred = infer_lambda(lambda, variables, context)?;
            Ok(Expression::Lambda(inferred))
        },
        Expression::Let(let_) => {
            let bound_expression = infer_expression(&let_.bound_expression, variables, context)?;
            let bound_type = type_extractor::extract_from_expression(
                &bound_expression,
                variables,
                context,
            )?;

            let scope = variables.len();
            match &let_.name {
                Some(name) => {
                    variables.insert(name.clone(), bound_type.clone());
                },
                None => {},
            }
            let body = match infer_expression(&let_.expression, variables, context) {
                Ok(body) => body,
                Err(error) => {
                    variables.truncate(scope);
                    proof {
                        assert(variables.entries() =~= old(variables).entries());
                    }
                    return Err(error);
                },
            };
            variables.truncate(scope);
            proof {
                assert(variables.entries() =~= old(variables).entries());
            }

            Ok(
                Expression::Let(
                    Let {
                        name: let_.name.clone(),
                        type_: Some(bound_type),
                        bound_expression: Box::new(bound_expression),
                        expression: Box::new(body),
                        position: let_.position.clone(),
                    },
                ),
            )
        },
        Expression::List(list) => {
            let mut elements: Vec<ListElement> = Vec::with_capacity(list.elements.len());
            let mut index: usize = 0;
            while index < list.elements.len()
                invariant
                    index <= list.elements@.len(),
                    elements@.len() == index,
                    variables.entries() == old(variables).entries(),
                    forall|i: int|
                        0 <= i < index ==> inferred_list_element(#[trigger] elements@[i]),
                decreases list.elements@.len() - index,
            {
                let element = match &list.elements[index] {
                    ListElement::Multiple(element) => ListElement::Multiple(
                        infer_expression(element, variables, context)?,
                    ),
                    ListElement::Single(element) => ListElement::Single(
                        infer_expression(element, variables, context)?,
                    ),
                };
                elements.push(element);
                index = index + 1;
            }
            Ok(
                Expression::List(
                    List {
                        type_: list.type_.clone(),
                        elements,
                        position: list.position.clone(),
                    },
                ),
            )
        },
        Expression::Operation(operation) => match operation {
            Operation::Arithmetic(operation) => {
                let lhs = infer_expression(&operation.lhs, variables, context)?;
                let rhs = infer_expression(&operation.rhs, variables, context)?;
                Ok(
                    Expression::Operation(
                        Operation::Arithmetic(
                            ArithmeticOperation {
                                operator: operation.operator,
                                lhs: Box::new(lhs),
                                rhs: Box::new(rhs),
                                position: operation.position.clone(),
                            },
                        ),
                    ),
                )
            },
            Operation::Boolean(operation) => {
                let lhs = infer_expression(&operation.lhs, variables, context)?;
                let rhs = infer_expression(&operation.rhs, variables, context)?;
                Ok(
                    Expression::Operation(
                        Operation::Boolean(
                            BooleanOperation {
                                operator: operation.operator,
                                lhs: Box::new(lhs),
                                rhs: Box::new(rhs),
                                position: operation.position.clone(),
                            },
                        ),
                    ),
                )
            },
            Operation::Equality(operation) => {
                let lhs = infer_expression(&operation.lhs, variables, context)?;
                let rhs = infer_expression(&operation.rhs, variables, context)?;
                let lhs_type = type_extractor::extract_from_expression(&lhs, variables, context)?;
                let rhs_type = type_extractor::extract_from_expression(&rhs, variables, context)?;
                Ok(
                    Expression::Operation(
                        Operation::Equality(
                            EqualityOperation {
                                type_: Some(
                                    Type::Union(
                                        Union {
                                            lhs: Box::new(lhs_type),
                                            rhs: Box::new(rhs_type),
                                            position: operation.position.clone(),
                                        },
                                    ),
                                ),
                                operator: operation.operator,
                                lhs: Box::new(lhs),
                                rhs: Box::new(rhs),
                                position: operation.position.clone(),
                            },
                        ),
                    ),
                )
            },
            Operation::Not(operation) => {
                let inner = infer_expression(&operation.expression, variables, context)?;
                Ok(
                    Expression::Operation(
                        Operation::Not(
                            NotOperation {
                                expression: Box::new(inner),
                                position: operation.position.clone(),
                            },
                        ),
                    ),
                )
            },
            Operation::Order(operation) => {
                let lhs = infer_expression(&operation.lhs, variables, context)?;
                let rhs = infer_expression(&operation.rhs, variables, context)?;
                Ok(
                    Expression::Operation(
                        Operation::Order(
                            OrderOperation {
                                operator: operation.operator,
                                lhs: Box::new(lhs),
                                rhs: Box::new(rhs),
                                position: operation.position.clone(),
                            },
                        ),
                    ),
                )
            },
            Operation::Try(operation) => {
                let inner = infer_expression(&operation.expression, variables, context)?;
                let operand_type = type_extractor::extract_from_expression(
                    &inner,
                    variables,
                    context,
                )?;
                let error_type = Type::Reference(
                    Reference {
                        name: context.error_type_name.clone(),
                        position: operation.position.clone(),
                    },
                );

                let success_type = match type_difference_calculator::calculate(
                    &operand_type,
                    &error_type,
                    &context.types,
                ) {
                    Ok(Some(success_type)) => {
                        if success_type.is_any() {
                            return Err(
                                CompileError::UnionTypeExpected(operation.position.clone()),
                            );
                        }
                        success_type
                    },
                    Ok(None) => {
                        return Err(CompileError::UnionTypeExpected(operation.position.clone()));
                    },
                    Err(error) => {
                        return Err(CompileError::Analysis(error));
                    },
                };

                Ok(
                    Expression::Operation(
                        Operation::Try(
                            TryOperation {
                                type_: Some(success_type),
                                expression: Box::new(inner),
                                position: operation.position.clone(),
                            },
                        ),
                    ),
                )
            },
        },
        Expression::RecordConstruction(construction) => {
            let mut elements: Vec<RecordElement> = Vec::with_capacity(construction.elements.len());
            let mut index: usize = 0;
            while index < construction.elements.len()
                invariant
                    index <= construction.elements@.len(),
                    elements@.len() == index,
                    variables.entries() == old(variables).entries(),
                    forall|i: int|
                        0 <= i < index ==> inferred_expression(
                            #[trigger] elements@[i].expression,
                        ),
                decreases construction.elements@.len() - index,
            {
                let element = &construction.elements[index];
                let value = infer_expression(&element.expression, variables, context)?;
                elements.push(
                    RecordElement {
                        name: element.name.clone(),
                        expression: value,
                        position: element.position.clone(),
                    },
                );
                index = index + 1;
            }
            Ok(
                Expression::RecordConstruction(
                    RecordConstruction {
                        type_: construction.type_.clone(),
                        elements,
                        position: construction.position.clone(),
                    },
                ),
            )
        },
        Expression::RecordDeconstruction(deconstruction) => {
            let record = infer_expression(&deconstruction.record, variables, context)?;
            let record_type = type_extractor::extract_from_expression(
                &record,
                variables,
                context,
            )?;
            Ok(
                Expression::RecordDeconstruction(
                    RecordDeconstruction {
                        type_: Some(record_type),
                        record: Box::new(record),
                        element_name: deconstruction.element_name.clone(),
                        position: deconstruction.position.clone(),
                    },
                ),
            )
        },
        Expression::RecordUpdate(update) => {
            let record = infer_expression(&update.record, variables, context)?;

            let mut elements: Vec<RecordElement> = Vec::with_capacity(update.elements.len());
            let mut index: usize = 0;
            while index < update.elements.len()
                invariant
                    index <= update.elements@.len(),
                    elements@.len() == index,
                    variables.entries() == old(variables).entries(),
                    forall|i: int|
                        0 <= i < index ==> inferred_expression(
                            #[trigger] elements@[i].expression,
                        ),
                decreases update.elements@.len() - index,
            {
                let element = &update.elements[index];
                let value = infer_expression(&element.expression, variables, context)?;
                elements.push(
                    RecordElement {
                        name: element.name.clone(),
                        expression: value,
                        position: element.position.clone(),
                    },
                );
                index = index + 1;
            }
            Ok(
                Expression::RecordUpdate(
                    RecordUpdate {
                        type_: update.type_.clone(),
                        record: Box::new(record),
                        elements,
                        position: update.position.clone(),
                    },
                ),
            )
        },
        Expression::Thunk(thunk) => {
            let value_type = type_extractor::extract_from_expression(
                &thunk.expression,
                variables,
                context,
            )?;
            let inner = infer_expression(&thunk.expression, variables, context)?;
            Ok(
                Expression::Thunk(
                    Thunk {
                        type_: Some(value_type),
                        expression: Box::new(inner),
                        position: thunk.position.clone(),
                    },
                ),
            )
        },
        Expression::TypeCoercion(coercion) => {
            let argument = infer_expression(&coercion.argument, variables, context)?;
            Ok(
                Expression::TypeCoercion(
                    TypeCoercion {
                        from: coercion.from.clone(),
                        to: coercion.to.clone(),
                        argument: Box::new(argument),
                        position: coercion.position.clone(),
                    },
                ),
            )
        },
    }
}

} // verus!
