//! Reading the type of an inferred expression back, against the variable
//! environment and the module's type registry.

use vstd::prelude::*;

use crate::hir::analysis::record_field_resolver;
use crate::hir::analysis::type_canonicalizer;
use crate::hir::analysis::union_type_creator;
use crate::hir::ir::{Expression, Lambda, ListElement, Operation};
use crate::hir::types::{
    same_type, Boolean, ByteString, Function, List, NoneType, Number, Type,
};
use crate::hir_mir::error::CompileError;
use crate::hir_mir::type_context::TypeContext;
use crate::name_map::NameMap;

verus! {

/// The function type a lambda declares: its argument types and its result
/// type.
pub fn extract_from_lambda(lambda: &Lambda) -> (function: Function)
    ensures
        function.arguments@.len() == lambda.arguments@.len(),
        forall|i: int|
            0 <= i < lambda.arguments@.len() ==> same_type(
                #[trigger] function.arguments@[i],
                lambda.arguments@[i].type_,
            ),
        same_type(*function.result, lambda.result_type),
{
    let mut arguments: Vec<Type> = Vec::with_capacity(lambda.arguments.len());
    let mut index: usize = 0;
    while index < lambda.arguments.len()
        invariant
            index <= lambda.arguments@.len(),
            arguments@.len() == index,
            forall|i: int|
                0 <= i < index ==> same_type(
                    #[trigger] arguments@[i],
                    lambda.arguments@[i].type_,
                ),
        decreases lambda.arguments@.len() - index,
    {
        arguments.push(lambda.arguments[index].type_.clone());
        index = index + 1;
    }
    Function {
        arguments,
        result: Box::new(lambda.result_type.clone()),
        position: lambda.position.clone(),
    }
}

/// The type of the inferred expression `expression`: read from its filled
/// type slots, the environment and the registry; extraction never leaves a
/// binding behind.
#[verifier::loop_isolation(false)]
pub(crate) fn extract_from_expression(
    expression: &Expression,
    variables: &mut NameMap<Type>,
    context: &TypeContext,
) -> (extracted: Result<Type, CompileError>)
    ensures
        final(variables).entries() == old(variables).entries(),
    decreases *expression,
{
    match expression {
        Expression::Boolean(literal) => Ok(
            Type::Boolean(Boolean { position: literal.position.clone() }),
        ),
        Expression::NoneLiteral(literal) => Ok(
            Type::NoneType(NoneType { position: literal.position.clone() }),
        ),
        Expression::Number(literal) => Ok(
            Type::Number(Number { position: literal.position.clone() }),
        ),
        Expression::StringLiteral(literal) => Ok(
            Type::ByteString(ByteString { position: literal.position.clone() }),
        ),
        Expression::Variable(variable) => {
            match variables.get(&variable.name) {
                Some(type_) => Ok(type_.clone()),
                None => Err(CompileError::VariableNotFound(variable.clone())),
            }
        },
        Expression::Call(call) => {
            let function_type = match &call.function_type {
                Some(function_type) => function_type,
                None => {
                    return Err(CompileError::TypeNotInferred(call.position.clone()));
                },
            };
            let canonical = match type_canonicalizer::canonicalize_function(
                function_type,
                &context.types,
            ) {
                Ok(canonical) => canonical,
                Err(error) => {
                    return Err(CompileError::Analysis(error));
                },
            };
            match canonical {
                Some(function) => Ok((&*function.result).clone()),
                None => Err(CompileError::FunctionExpected(call.position.clone())),
            }
        },
        Expression::If(if_) => {
            let then_type = extract_from_expression(&if_.then_, variables, context)?;
            let else_type = extract_from_expression(&if_.else_, variables, context)?;
            Ok(
                Type::Union(
                    crate::hir::types::Union {
                        lhs: Box::new(then_type),
                        rhs: Box::new(else_type),
                        position: if_.position.clone(),
                    },
                ),
            )
        },
        Expression::IfList(if_) => {
            let element = match &if_.type_ {
                Some(element) => element,
                None => {
                    return Err(CompileError::TypeNotInferred(if_.position.clone()));
                },
            };
            let scope = variables.len();
            variables.insert(
                if_.first_name.clone(),
                Type::Function(
                    Function {
                        arguments: Vec::new(),
                        result: Box::new(element.clone()),
                        position: if_.position.clone(),
                    },
                ),
            );
            variables.insert(
                if_.rest_name.clone(),
                Type::List(
                    List { element: Box::new(element.clone()), position: if_.position.clone() },
                ),
            );
            let then_type = match extract_from_expression(&if_.then_, variables, context) {
                Ok(then_type) => then_type,
                Err(error) => {
                    variables.truncate(scope);
                    proof {
                        assert(final(variables).entries() =~= old(variables).entries());
                    }
                    return Err(error);
                },
            };
            variables.truncate(scope);
            proof {
                assert(variables.entries() =~= old(variables).entries());
            }
            let else_type = extract_from_expression(&if_.else_, variables, context)?;
            Ok(
                Type::Union(
                    crate::hir::types::Union {
                        lhs: Box::new(then_type),
                        rhs: Box::new(else_type),
                        position: if_.position.clone(),
                    },
                ),
            )
        },
        Expression::IfType(if_) => {
            let mut member_types: Vec<Type> = Vec::new();
            let mut index: usize = 0;
            while index < if_.branches.len()
                invariant
                    index <= if_.branches@.len(),
                    variables.entries() == old(variables).entries(),
                decreases if_.branches@.len() - index,
            {
                let branch = &if_.branches[index];
                let scope = variables.len();
                variables.insert(if_.name.clone(), branch.type_.clone());
                let branch_type = match extract_from_expression(
                    &branch.expression,
                    variables,
                    context,
                ) {
                    Ok(branch_type) => branch_type,
                    Err(error) => {
                        variables.truncate(scope);
                        proof {
                            assert(variables.entries() =~= old(variables).entries());
                        }
                        return Err(error);
                    },
                };
                variables.truncate(scope);
                proof {
                    assert(variables.entries() =~= old(variables).entries());
                }
                member_types.push(branch_type);
                index = index + 1;
            }
            match &if_.else_ {
                Some(else_branch) => {
                    let bound = match &else_branch.type_ {
                        Some(bound) => bound,
                        None => {
                            return Err(
                                CompileError::TypeNotInferred(else_branch.position.clone()),
                            );
                        },
                    };
                    let scope = variables.len();
                    variables.insert(if_.name.clone(), bound.clone());
                    let else_type = match extract_from_expression(
                        &else_branch.expression,
                        variables,
                        context,
                    ) {
                        Ok(else_type) => else_type,
                        Err(error) => {
                            variables.truncate(scope);
                            proof {
                                assert(variables.entries() =~= old(variables).entries());
                            }
                            return Err(error);
                        },
                    };
                    variables.truncate(scope);
                    proof {
                        assert(variables.entries() =~= old(variables).entries());
                    }
                    member_types.push(else_type);
                },
                None => {},
            }
            match union_type_creator::create(&member_types, &if_.position) {
                Some(union_type) => Ok(union_type),
                None => Err(CompileError::TypeNotInferred(if_.position.clone())),
            }
        },
        Expression::Lambda(lambda) => Ok(Type::Function(extract_from_lambda(lambda))),
        Expression::Let(let_) => {
            let bound_type = match &let_.type_ {
                Some(bound_type) => bound_type,
                None => {
                    return Err(CompileError::TypeNotInferred(let_.position.clone()));
                },
            };
            let scope = variables.len();
            match &let_.name {
                Some(name) => {
                    variables.insert(name.clone(), bound_type.clone());
                },
                None => {},
            }
            let body_type = match extract_from_expression(&let_.expression, variables, context) {
                Ok(body_type) => body_type,
                Err(error) => {
                    variables.truncate(scope);
                    proof {
                        assert(variables.entries() =~= old(variables).entries());
                    }
                    return Err(error);
                },
            };
            variables.truncate(scope);
            proof {
                assert(variables.entries() =~= old(variables).entries());
            }
            Ok(body_type)
        },
        Expression::List(list) => Ok(
            Type::List(
                List {
                    element: Box::new(list.type_.clone()),
                    position: list.position.clone(),
                },
            ),
        ),
        Expression::Operation(operation) => match operation {
            Operation::Arithmetic(operation) => Ok(
                Type::Number(Number { position: operation.position.clone() }),
            ),
            Operation::Boolean(operation) => Ok(
                Type::Boolean(Boolean { position: operation.position.clone() }),
            ),
            Operation::Equality(operation) => Ok(
                Type::Boolean(Boolean { position: operation.position.clone() }),
            ),
            Operation::Not(operation) => Ok(
                Type::Boolean(Boolean { position: operation.position.clone() }),
            ),
            Operation::Order(operation) => Ok(
                Type::Boolean(Boolean { position: operation.position.clone() }),
            ),
            Operation::Try(operation) => {
                match &operation.type_ {
                    Some(success_type) => Ok(success_type.clone()),
                    None => Err(CompileError::TypeNotInferred(operation.position.clone())),
                }
            },
        },
        Expression::RecordConstruction(construction) => Ok(
            Type::Record(construction.type_.clone()),
        ),
        Expression::RecordDeconstruction(deconstruction) => {
            let record_type = match &deconstruction.type_ {
                Some(record_type) => record_type,
                None => {
                    return Err(CompileError::TypeNotInferred(deconstruction.position.clone()));
                },
            };
            let fields = match record_field_resolver::resolve(
                record_type,
                &context.types,
                &context.records,
            ) {
                Ok(fields) => fields,
                Err(error) => {
                    return Err(CompileError::Analysis(error));
                },
            };
            let mut index: usize = 0;
            while index < fields.len()
                invariant
                    index <= fields@.len(),
                decreases fields@.len() - index,
            {
                if fields[index].name == deconstruction.element_name {
                    return Ok(fields[index].type_.clone());
                }
                index = index + 1;
            }
            Err(CompileError::RecordElementNotFound(deconstruction.position.clone()))
        },
        Expression::RecordUpdate(update) => Ok(Type::Record(update.type_.clone())),
        Expression::Thunk(thunk) => {
            match &thunk.type_ {
                Some(value_type) => Ok(
                    Type::Function(
                        Function {
                            arguments: Vec::new(),
                            result: Box::new(value_type.clone()),
                            position: thunk.position.clone(),
                        },
                    ),
                ),
                None => Err(CompileError::TypeNotInferred(thunk.position.clone())),
            }
        },
        Expression::TypeCoercion(coercion) => Ok(coercion.to.clone()),
    }
}

} // verus!
