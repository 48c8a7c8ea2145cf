use pen::hir::ir::{Definition, Lambda, Module, NoneLiteral};
use pen::hir::test_ir::{position, DefinitionFake};
use pen::hir::types::NoneType;
use pen::hir_mir::module_interface_compiler::compile;
use pen::interface;

#[test]
fn compile_empty_module() {
    assert_eq!(
        compile(&Module::empty()),
        Ok(interface::Module::new(vec![], vec![], vec![]))
    );
}

#[test]
fn compile_without_private_declaration() {
    assert_eq!(
        compile(&Module::empty().set_definitions(vec![Definition::fake(
            "foo",
            Lambda::new(
                vec![],
                NoneType::new(position()).into(),
                NoneLiteral::new(position()).into(),
                position(),
            ),
            false,
        )])),
        Ok(interface::Module::new(vec![], vec![], vec![]))
    );
}

#[test]
fn compile_public_declaration() {
    assert_eq!(
        compile(&Module::empty().set_definitions(vec![Definition::fake(
            "foo",
            Lambda::new(
                vec![],
                NoneType::new(position()).into(),
                NoneLiteral::new(position()).into(),
                position(),
            ),
            true,
        )])),
        Ok(interface::Module::new(
            vec![],
            vec![],
            vec![interface::Declaration::new(
                "foo",
                "",
                pen::hir::types::Function::new(
                    vec![],
                    NoneType::new(position()).into(),
                    position()
                ),
                position()
            )]
        ))
    );
}
