use pen::ast::{InternalModulePath, ModulePath};
use pen::ast_hir::singleton_record_compiler::compile;
use pen::hir::ir::{Definition, Lambda, Module, RecordConstruction, TypeDefinition, Variable};
use pen::hir::test_ir::{position, DefinitionFake};
use pen::hir::types::{NoneType, Record};
use pen::interface;

fn internal_path(components: Vec<String>) -> ModulePath {
    ModulePath::Internal(InternalModulePath::new(components))
}

#[test]
fn compile_singleton_record() {
    let type_definition =
        TypeDefinition::new("bar", "foo", vec![], false, false, false, position());

    assert_eq!(
        compile(
            &Module::empty()
                .set_type_definitions(vec![type_definition.clone()])
                .set_definitions(vec![Definition::fake(
                    "f",
                    Lambda::new(
                        vec![],
                        NoneType::new(position()).into(),
                        Variable::new("foo", position()).into(),
                        position()
                    ),
                    false
                )]),
            &vec![],
        ),
        Module::empty()
            .set_type_definitions(vec![type_definition])
            .set_definitions(vec![Definition::fake(
                "f",
                Lambda::new(
                    vec![],
                    NoneType::new(position()).into(),
                    RecordConstruction::new(Record::new("bar", position()), vec![], position())
                        .into(),
                    position()
                ),
                false
            )])
    );
}

#[test]
fn do_not_compile_non_singleton_record() {
    let type_definition = TypeDefinition::new(
        "bar",
        "foo",
        vec![pen::hir::types::RecordElement::new(
            "x",
            NoneType::new(position()).into(),
        )],
        false,
        false,
        false,
        position(),
    );
    let definition = Definition::fake(
        "f",
        Lambda::new(
            vec![],
            NoneType::new(position()).into(),
            Variable::new("foo", position()).into(),
            position(),
        ),
        false,
    );

    assert_eq!(
        compile(
            &Module::empty()
                .set_type_definitions(vec![type_definition.clone()])
                .set_definitions(vec![definition.clone()]),
            &vec![],
        ),
        Module::empty()
            .set_type_definitions(vec![type_definition])
            .set_definitions(vec![definition])
    );
}

#[test]
fn compile_imported_singleton_record() {
    assert_eq!(
        compile(
            &Module::empty().set_definitions(vec![Definition::fake(
                "f",
                Lambda::new(
                    vec![],
                    NoneType::new(position()).into(),
                    Variable::new("Foo'Foo", position()).into(),
                    position()
                ),
                false
            )]),
            &vec![(
                internal_path(vec!["Foo".into()]),
                interface::Module::new(
                    vec![interface::TypeDefinition::new(
                        "RealFoo",
                        "Foo",
                        vec![],
                        false,
                        true,
                        position()
                    )],
                    vec![],
                    vec![]
                )
            )],
        ),
        Module::empty().set_definitions(vec![Definition::fake(
            "f",
            Lambda::new(
                vec![],
                NoneType::new(position()).into(),
                RecordConstruction::new(Record::new("RealFoo", position()), vec![], position())
                    .into(),
                position()
            ),
            false
        )])
    );
}

#[test]
fn do_not_compile_imported_non_singleton_record() {
    let definition = Definition::fake(
        "f",
        Lambda::new(
            vec![],
            NoneType::new(position()).into(),
            Variable::new("Foo'Foo", position()).into(),
            position(),
        ),
        false,
    );

    assert_eq!(
        compile(
            &Module::empty().set_definitions(vec![definition.clone()]),
            &vec![(
                internal_path(vec!["Foo".into()]),
                interface::Module::new(
                    vec![interface::TypeDefinition::new(
                        "RealFoo",
                        "Foo",
                        vec![pen::hir::types::RecordElement::new(
                            "x",
                            NoneType::new(position()).into(),
                        )],
                        false,
                        true,
                        position()
                    )],
                    vec![],
                    vec![]
                )
            )],
        ),
        Module::empty().set_definitions(vec![definition])
    );
}

#[test]
fn do_not_compile_imported_private_record() {
    let definition = Definition::fake(
        "f",
        Lambda::new(
            vec![],
            NoneType::new(position()).into(),
            Variable::new("Foo'Foo", position()).into(),
            position(),
        ),
        false,
    );

    assert_eq!(
        compile(
            &Module::empty().set_definitions(vec![definition.clone()]),
            &vec![(
                internal_path(vec!["Foo".into()]),
                interface::Module::new(
                    vec![interface::TypeDefinition::new(
                        "RealFoo",
                        "Foo",
                        vec![],
                        false,
                        false,
                        position()
                    )],
                    vec![],
                    vec![]
                )
            )],
        ),
        Module::empty().set_definitions(vec![definition])
    );
}
