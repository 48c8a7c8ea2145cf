use pen::ast::{ExternalModulePath, Import, InternalModulePath, ModulePath};
use pen::ast_hir::name_qualifier::qualify;

#[test]
fn import_keeps_its_parts() {
    let import = Import::new(
        ModulePath::Internal(InternalModulePath::new(vec!["Foo".into(), "Bar".into()])),
        Some("Bar".into()),
        vec!["x".into(), "y".into()],
    );

    assert_eq!(
        import.path(),
        &ModulePath::Internal(InternalModulePath::new(vec!["Foo".into(), "Bar".into()]))
    );
    assert_eq!(import.prefix(), Some("Bar"));
    assert_eq!(import.unqualified_names(), &["x".to_string(), "y".to_string()]);
}

#[test]
fn import_without_prefix() {
    let import = Import::new(
        ModulePath::External(ExternalModulePath::new("core", vec!["Os".into()])),
        None,
        vec![],
    );

    assert_eq!(import.prefix(), None);
    assert_eq!(import.unqualified_names(), &[] as &[String]);
}

#[test]
fn qualify_with_last_path_component() {
    assert_eq!(
        qualify(
            &ModulePath::Internal(InternalModulePath::new(vec!["Foo".into(), "Bar".into()])),
            "Baz"
        ),
        "Bar'Baz"
    );
}

#[test]
fn qualify_external_path() {
    assert_eq!(
        qualify(
            &ModulePath::External(ExternalModulePath::new("core", vec!["Os".into()])),
            "File"
        ),
        "Os'File"
    );
}
