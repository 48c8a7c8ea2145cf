use pen::hir::ir::{
    Argument, Call, Declaration, Definition, ElseBranch, EqualityOperation, EqualityOperator,
    Expression, IfList, IfType, IfTypeBranch, Lambda, Let, Module, NoneLiteral, RecordDeconstruction,
    Thunk, TryOperation, TypeDefinition, Variable,
};
use pen::hir::test_ir::{position, DefinitionFake, TypeDefinitionFake};
use pen::hir::types::{
    Any, Boolean, Function, List, NoneType, Number, Record, RecordElement, Reference, Union,
};
use pen::hir_mir::error::CompileError;
use pen::hir_mir::type_context::TypeContext;
use pen::hir_mir::type_inferrer::infer_types;

fn infer_module(module: &Module) -> Result<Module, CompileError> {
    infer_types(module, &TypeContext::new(module, "error"))
}

#[test]
fn infer_empty_module() {
    infer_module(&Module::empty()).unwrap();
}

#[test]
fn infer_call() {
    assert_eq!(
        infer_module(&Module::empty().set_definitions(vec![Definition::fake(
            "x",
            Lambda::new(
                vec![],
                NoneType::new(position()).into(),
                Call::new(None, Variable::new("x", position()).into(), vec![], position()).into(),
                position(),
            ),
            false,
        )])),
        Ok(Module::empty().set_definitions(vec![Definition::fake(
            "x",
            Lambda::new(
                vec![],
                NoneType::new(position()).into(),
                Call::new(
                    Some(
                        Function::new(vec![], NoneType::new(position()).into(), position()).into()
                    ),
                    Variable::new("x", position()).into(),
                    vec![],
                    position()
                )
                .into(),
                position(),
            ),
            false,
        )]))
    );
}

#[test]
fn infer_equality_operation() {
    assert_eq!(
        infer_module(&Module::empty().set_definitions(vec![Definition::fake(
            "x",
            Lambda::new(
                vec![],
                NoneType::new(position()).into(),
                EqualityOperation::new(
                    None,
                    EqualityOperator::Equal,
                    NoneLiteral::new(position()).into(),
                    NoneLiteral::new(position()).into(),
                    position()
                )
                .into(),
                position(),
            ),
            false,
        )])),
        Ok(Module::empty().set_definitions(vec![Definition::fake(
            "x",
            Lambda::new(
                vec![],
                NoneType::new(position()).into(),
                EqualityOperation::new(
                    Some(
                        Union::new(
                            NoneType::new(position()).into(),
                            NoneType::new(position()).into(),
                            position()
                        )
                        .into()
                    ),
                    EqualityOperator::Equal,
                    NoneLiteral::new(position()).into(),
                    NoneLiteral::new(position()).into(),
                    position()
                )
                .into(),
                position(),
            ),
            false,
        )]))
    );
}

#[test]
fn infer_let() {
    assert_eq!(
        infer_module(&Module::empty().set_definitions(vec![Definition::fake(
            "x",
            Lambda::new(
                vec![],
                NoneType::new(position()).into(),
                Let::new(
                    Some("x".into()),
                    None,
                    NoneLiteral::new(position()).into(),
                    Variable::new("x", position()).into(),
                    position(),
                )
                .into(),
                position(),
            ),
            false,
        )])),
        Ok(Module::empty().set_definitions(vec![Definition::fake(
            "x",
            Lambda::new(
                vec![],
                NoneType::new(position()).into(),
                Let::new(
                    Some("x".into()),
                    Some(NoneType::new(position()).into()),
                    NoneLiteral::new(position()).into(),
                    Variable::new("x", position()).into(),
                    position(),
                )
                .into(),
                position(),
            ),
            false,
        )]))
    );
}

#[test]
fn infer_let_with_call() {
    let declaration = Declaration::new(
        "f",
        Function::new(vec![], NoneType::new(position()).into(), position()),
        position(),
    );

    assert_eq!(
        infer_module(
            &Module::empty()
                .set_declarations(vec![declaration.clone()])
                .set_definitions(vec![Definition::fake(
                    "x",
                    Lambda::new(
                        vec![],
                        NoneType::new(position()).into(),
                        Let::new(
                            Some("x".into()),
                            None,
                            Call::new(
                                None,
                                Variable::new("f", position()).into(),
                                vec![],
                                position()
                            )
                            .into(),
                            Variable::new("x", position()).into(),
                            position(),
                        )
                        .into(),
                        position(),
                    ),
                    false,
                )])
        ),
        Ok(Module::empty()
            .set_declarations(vec![declaration.clone()])
            .set_definitions(vec![Definition::fake(
                "x",
                Lambda::new(
                    vec![],
                    NoneType::new(position()).into(),
                    Let::new(
                        Some("x".into()),
                        Some(NoneType::new(position()).into()),
                        Call::new(
                            Some(declaration.type_.clone().into()),
                            Variable::new("f", position()).into(),
                            vec![],
                            position()
                        )
                        .into(),
                        Variable::new("x", position()).into(),
                        position(),
                    )
                    .into(),
                    position(),
                ),
                false,
            )]))
    );
}

#[test]
fn infer_record_deconstruction() {
    let type_definition = TypeDefinition::new(
        "r",
        "",
        vec![RecordElement::new("x", NoneType::new(position()).into())],
        false,
        false,
        false,
        position(),
    );

    assert_eq!(
        infer_module(
            &Module::empty()
                .set_type_definitions(vec![type_definition.clone()])
                .set_definitions(vec![Definition::fake(
                    "x",
                    Lambda::new(
                        vec![Argument::new("x", Record::new("r", position()).into())],
                        NoneType::new(position()).into(),
                        RecordDeconstruction::new(
                            None,
                            Variable::new("x", position()).into(),
                            "x",
                            position()
                        )
                        .into(),
                        position(),
                    ),
                    false,
                )])
        ),
        Ok(Module::empty()
            .set_type_definitions(vec![type_definition.clone()])
            .set_definitions(vec![Definition::fake(
                "x",
                Lambda::new(
                    vec![Argument::new("x", Record::new("r", position()).into())],
                    NoneType::new(position()).into(),
                    RecordDeconstruction::new(
                        Some(Record::new("r", position()).into()),
                        Variable::new("x", position()).into(),
                        "x",
                        position()
                    )
                    .into(),
                    position(),
                ),
                false,
            )]))
    );
}

#[test]
fn infer_thunk() {
    let none_type = NoneType::new(position());

    assert_eq!(
        infer_module(&Module::empty().set_definitions(vec![Definition::fake(
            "x",
            Lambda::new(
                vec![],
                none_type.clone().into(),
                Thunk::new(None, NoneLiteral::new(position()).into(), position()).into(),
                position(),
            ),
            false,
        )])),
        Ok(Module::empty().set_definitions(vec![Definition::fake(
            "x",
            Lambda::new(
                vec![],
                none_type.clone().into(),
                Thunk::new(
                    Some(none_type.into()),
                    NoneLiteral::new(position()).into(),
                    position()
                )
                .into(),
                position(),
            ),
            false,
        )]))
    );
}

#[test]
fn infer_else_branch_type_of_none() {
    let union_type = Union::new(
        Number::new(position()).into(),
        NoneType::new(position()).into(),
        position(),
    );
    let branches = vec![IfTypeBranch::new(
        Number::new(position()).into(),
        NoneLiteral::new(position()).into(),
    )];

    assert_eq!(
        infer_module(&Module::empty().set_definitions(vec![Definition::fake(
            "x",
            Lambda::new(
                vec![Argument::new("x", union_type.clone().into())],
                NoneType::new(position()).into(),
                IfType::new(
                    "x",
                    Variable::new("x", position()).into(),
                    branches.clone(),
                    Some(ElseBranch::new(
                        None,
                        NoneLiteral::new(position()).into(),
                        position()
                    )),
                    position()
                )
                .into(),
                position(),
            ),
            false,
        )])),
        Ok(Module::empty().set_definitions(vec![Definition::fake(
            "x",
            Lambda::new(
                vec![Argument::new("x", union_type.into())],
                NoneType::new(position()).into(),
                IfType::new(
                    "x",
                    Variable::new("x", position()).into(),
                    branches,
                    Some(ElseBranch::new(
                        Some(NoneType::new(position()).into()),
                        NoneLiteral::new(position()).into(),
                        position()
                    )),
                    position()
                )
                .into(),
                position(),
            ),
            false,
        )]))
    );
}

#[test]
fn infer_else_branch_type_of_union() {
    let union_type = Union::new(
        Union::new(
            Number::new(position()).into(),
            Boolean::new(position()).into(),
            position(),
        )
        .into(),
        NoneType::new(position()).into(),
        position(),
    );
    let branches = vec![IfTypeBranch::new(
        Number::new(position()).into(),
        NoneLiteral::new(position()).into(),
    )];

    assert_eq!(
        infer_module(&Module::empty().set_definitions(vec![Definition::fake(
            "x",
            Lambda::new(
                vec![Argument::new("x", union_type.clone().into())],
                NoneType::new(position()).into(),
                IfType::new(
                    "x",
                    Variable::new("x", position()).into(),
                    branches.clone(),
                    Some(ElseBranch::new(
                        None,
                        NoneLiteral::new(position()).into(),
                        position()
                    )),
                    position()
                )
                .into(),
                position(),
            ),
            false,
        )])),
        Ok(Module::empty().set_definitions(vec![Definition::fake(
            "x",
            Lambda::new(
                vec![Argument::new("x", union_type.into())],
                NoneType::new(position()).into(),
                IfType::new(
                    "x",
                    Variable::new("x", position()).into(),
                    branches,
                    Some(ElseBranch::new(
                        Some(
                            Union::new(
                                Boolean::new(position()).into(),
                                NoneType::new(position()).into(),
                                position(),
                            )
                            .into()
                        ),
                        NoneLiteral::new(position()).into(),
                        position()
                    )),
                    position()
                )
                .into(),
                position(),
            ),
            false,
        )]))
    );
}

#[test]
fn infer_else_branch_type_with_bound_variable() {
    let function_type = Function::new(vec![], NoneType::new(position()).into(), position());
    let union_type = Union::new(
        function_type.clone().into(),
        NoneType::new(position()).into(),
        position(),
    );
    let branches = vec![IfTypeBranch::new(
        NoneType::new(position()).into(),
        NoneLiteral::new(position()).into(),
    )];

    assert_eq!(
        infer_module(&Module::empty().set_definitions(vec![Definition::fake(
            "x",
            Lambda::new(
                vec![Argument::new("x", union_type.clone().into())],
                NoneType::new(position()).into(),
                IfType::new(
                    "y",
                    Variable::new("x", position()).into(),
                    branches.clone(),
                    Some(ElseBranch::new(
                        None,
                        Call::new(None, Variable::new("y", position()).into(), vec![], position())
                            .into(),
                        position()
                    )),
                    position()
                )
                .into(),
                position(),
            ),
            false,
        )])),
        Ok(Module::empty().set_definitions(vec![Definition::fake(
            "x",
            Lambda::new(
                vec![Argument::new("x", union_type.into())],
                NoneType::new(position()).into(),
                IfType::new(
                    "y",
                    Variable::new("x", position()).into(),
                    branches,
                    Some(ElseBranch::new(
                        Some(function_type.clone().into()),
                        Call::new(
                            Some(function_type.into()),
                            Variable::new("y", position()).into(),
                            vec![],
                            position()
                        )
                        .into(),
                        position()
                    )),
                    position()
                )
                .into(),
                position(),
            ),
            false,
        )]))
    );
}

#[test]
fn infer_else_branch_type_of_any() {
    let any_type = Any::new(position());
    let branches = vec![IfTypeBranch::new(
        Number::new(position()).into(),
        NoneLiteral::new(position()).into(),
    )];

    assert_eq!(
        infer_module(&Module::empty().set_definitions(vec![Definition::fake(
            "x",
            Lambda::new(
                vec![Argument::new("x", any_type.clone().into())],
                NoneType::new(position()).into(),
                IfType::new(
                    "x",
                    Variable::new("x", position()).into(),
                    branches.clone(),
                    Some(ElseBranch::new(
                        None,
                        NoneLiteral::new(position()).into(),
                        position()
                    )),
                    position()
                )
                .into(),
                position(),
            ),
            false,
        )])),
        Ok(Module::empty().set_definitions(vec![Definition::fake(
            "x",
            Lambda::new(
                vec![Argument::new("x", any_type.clone().into())],
                NoneType::new(position()).into(),
                IfType::new(
                    "x",
                    Variable::new("x", position()).into(),
                    branches,
                    Some(ElseBranch::new(
                        Some(any_type.into()),
                        NoneLiteral::new(position()).into(),
                        position()
                    )),
                    position()
                )
                .into(),
                position(),
            ),
            false,
        )]))
    );
}

#[test]
fn fail_to_infer_else_branch_type_due_to_unreachable_code() {
    let union_type = Union::new(
        Number::new(position()).into(),
        NoneType::new(position()).into(),
        position(),
    );

    assert_eq!(
        infer_module(&Module::empty().set_definitions(vec![Definition::fake(
            "x",
            Lambda::new(
                vec![Argument::new("x", union_type.into())],
                NoneType::new(position()).into(),
                IfType::new(
                    "x",
                    Variable::new("x", position()).into(),
                    vec![
                        IfTypeBranch::new(
                            Number::new(position()).into(),
                            NoneLiteral::new(position()).into(),
                        ),
                        IfTypeBranch::new(
                            NoneType::new(position()).into(),
                            NoneLiteral::new(position()).into(),
                        )
                    ],
                    Some(ElseBranch::new(
                        None,
                        NoneLiteral::new(position()).into(),
                        position()
                    )),
                    position()
                )
                .into(),
                position(),
            ),
            false,
        )])),
        Err(CompileError::UnreachableCode(position()))
    );
}

#[test]
fn infer() {
    let union_type = Union::new(
        NoneType::new(position()).into(),
        Reference::new("error", position()).into(),
        position(),
    );
    let module = Module::empty().set_type_definitions(vec![TypeDefinition::fake(
        "error",
        vec![],
        false,
        false,
        false,
    )]);

    assert_eq!(
        infer_module(&module.set_definitions(vec![Definition::fake(
            "f",
            Lambda::new(
                vec![Argument::new("x", union_type.clone().into())],
                union_type.clone().into(),
                TryOperation::new(None, Variable::new("x", position()).into(), position(),).into(),
                position(),
            ),
            false,
        )])),
        Ok(module.set_definitions(vec![Definition::fake(
            "f",
            Lambda::new(
                vec![Argument::new("x", union_type.clone().into())],
                union_type.into(),
                TryOperation::new(
                    Some(NoneType::new(position()).into()),
                    Variable::new("x", position()).into(),
                    position(),
                )
                .into(),
                position(),
            ),
            false,
        )]))
    );
}

#[test]
fn fail_to_infer_with_error() {
    let error_type = Reference::new("error", position());

    assert_eq!(
        infer_module(
            &Module::empty()
                .set_type_definitions(vec![TypeDefinition::fake(
                    "error",
                    vec![],
                    false,
                    false,
                    false,
                )])
                .set_definitions(vec![Definition::fake(
                    "f",
                    Lambda::new(
                        vec![Argument::new("x", error_type.clone().into())],
                        error_type.into(),
                        TryOperation::new(None, Variable::new("x", position()).into(), position(),)
                            .into(),
                        position(),
                    ),
                    false,
                )])
        ),
        Err(CompileError::UnionTypeExpected(position()))
    );
}

#[test]
fn type_inferrer_infer() {
    let list_type = List::new(NoneType::new(position()).into(), position());

    assert_eq!(
        infer_module(&Module::empty().set_definitions(vec![Definition::fake(
            "f",
            Lambda::new(
                vec![Argument::new("x", list_type.clone().into())],
                NoneType::new(position()).into(),
                IfList::new(
                    None,
                    Variable::new("x", position()).into(),
                    "y",
                    "ys",
                    Variable::new("y", position()).into(),
                    NoneLiteral::new(position()).into(),
                    position(),
                )
                .into(),
                position(),
            ),
            false,
        )])),
        Ok(Module::empty().set_definitions(vec![Definition::fake(
            "f",
            Lambda::new(
                vec![Argument::new("x", list_type.into())],
                NoneType::new(position()).into(),
                IfList::new(
                    Some(NoneType::new(position()).into()),
                    Variable::new("x", position()).into(),
                    "y",
                    "ys",
                    Variable::new("y", position()).into(),
                    NoneLiteral::new(position()).into(),
                    position(),
                )
                .into(),
                position(),
            ),
            false,
        )]))
    );
}

#[test]
fn infer_with_first_name_in_let() {
    let list_type = List::new(NoneType::new(position()).into(), position());

    assert_eq!(
        infer_module(&Module::empty().set_definitions(vec![Definition::fake(
            "f",
            Lambda::new(
                vec![Argument::new("x", list_type.clone().into())],
                NoneType::new(position()).into(),
                IfList::new(
                    None,
                    Variable::new("x", position()).into(),
                    "y",
                    "ys",
                    Let::new(
                        Some("z".into()),
                        None,
                        Variable::new("y", position()).into(),
                        Variable::new("z", position()).into(),
                        position()
                    )
                    .into(),
                    NoneLiteral::new(position()).into(),
                    position(),
                )
                .into(),
                position(),
            ),
            false,
        )])),
        Ok(Module::empty().set_definitions(vec![Definition::fake(
            "f",
            Lambda::new(
                vec![Argument::new("x", list_type.into())],
                NoneType::new(position()).into(),
                IfList::new(
                    Some(NoneType::new(position()).into()),
                    Variable::new("x", position()).into(),
                    "y",
                    "ys",
                    Let::new(
                        Some("z".into()),
                        Some(
                            Function::new(vec![], NoneType::new(position()).into(), position())
                                .into()
                        ),
                        Variable::new("y", position()).into(),
                        Variable::new("z", position()).into(),
                        position()
                    )
                    .into(),
                    NoneLiteral::new(position()).into(),
                    position(),
                )
                .into(),
                position(),
            ),
            false,
        )]))
    );
}

#[test]
fn infer_with_rest_name_in_let() {
    let list_type = List::new(NoneType::new(position()).into(), position());

    assert_eq!(
        infer_module(&Module::empty().set_definitions(vec![Definition::fake(
            "f",
            Lambda::new(
                vec![Argument::new("x", list_type.clone().into())],
                NoneType::new(position()).into(),
                IfList::new(
                    None,
                    Variable::new("x", position()).into(),
                    "y",
                    "ys",
                    Let::new(
                        Some("z".into()),
                        None,
                        Variable::new("ys", position()).into(),
                        Variable::new("z", position()).into(),
                        position()
                    )
                    .into(),
                    NoneLiteral::new(position()).into(),
                    position(),
                )
                .into(),
                position(),
            ),
            false,
        )])),
        Ok(Module::empty().set_definitions(vec![Definition::fake(
            "f",
            Lambda::new(
                vec![Argument::new("x", list_type.into())],
                NoneType::new(position()).into(),
                IfList::new(
                    Some(NoneType::new(position()).into()),
                    Variable::new("x", position()).into(),
                    "y",
                    "ys",
                    Let::new(
                        Some("z".into()),
                        Some(List::new(NoneType::new(position()).into(), position()).into()),
                        Variable::new("ys", position()).into(),
                        Variable::new("z", position()).into(),
                        position()
                    )
                    .into(),
                    NoneLiteral::new(position()).into(),
                    position(),
                )
                .into(),
                position(),
            ),
            false,
        )]))
    );
}

#[test]
fn fail_to_infer_unknown_variable_in_call() {
    assert_eq!(
        infer_module(&Module::empty().set_definitions(vec![Definition::fake(
            "x",
            Lambda::new(
                vec![],
                NoneType::new(position()).into(),
                Call::new(None, Variable::new("g", position()).into(), vec![], position()).into(),
                position(),
            ),
            false,
        )])),
        Err(CompileError::VariableNotFound(Variable::new("g", position())))
    );
}

#[test]
fn fail_to_infer_call_of_non_function() {
    assert_eq!(
        infer_module(&Module::empty().set_definitions(vec![Definition::fake(
            "x",
            Lambda::new(
                vec![],
                NoneType::new(position()).into(),
                Let::new(
                    Some("y".into()),
                    None,
                    Call::new(None, NoneLiteral::new(position()).into(), vec![], position())
                        .into(),
                    Variable::new("y", position()).into(),
                    position(),
                )
                .into(),
                position(),
            ),
            false,
        )])),
        Err(CompileError::FunctionExpected(position()))
    );
}

#[test]
fn fail_to_infer_list_scrutiny_of_non_list() {
    assert_eq!(
        infer_module(&Module::empty().set_definitions(vec![Definition::fake(
            "f",
            Lambda::new(
                vec![Argument::new("x", NoneType::new(position()).into())],
                NoneType::new(position()).into(),
                IfList::new(
                    None,
                    Variable::new("x", position()).into(),
                    "y",
                    "ys",
                    NoneLiteral::new(position()).into(),
                    NoneLiteral::new(position()).into(),
                    position(),
                )
                .into(),
                position(),
            ),
            false,
        )])),
        Err(CompileError::ListExpected(position()))
    );
}

#[test]
fn fail_to_infer_unresolved_reference() {
    assert_eq!(
        infer_module(&Module::empty().set_definitions(vec![Definition::fake(
            "f",
            Lambda::new(
                vec![Argument::new("x", Reference::new("missing", position()).into())],
                NoneType::new(position()).into(),
                TryOperation::new(None, Variable::new("x", position()).into(), position()).into(),
                position(),
            ),
            false,
        )])),
        Err(CompileError::Analysis(
            pen::hir::analysis::AnalysisError::TypeNotFound(Reference::new("missing", position()))
        ))
    );
}
