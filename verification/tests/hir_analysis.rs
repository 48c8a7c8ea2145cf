use pen::hir::analysis::record_field_resolver;
use pen::hir::analysis::type_canonicalizer::{canonicalize_list, canonicalize_record, type_equals};
use pen::hir::analysis::type_difference_calculator::calculate;
use pen::hir::analysis::type_resolver;
use pen::hir::analysis::union_type_creator::create;
use pen::hir::analysis::AnalysisError;
use pen::hir::types::{
    Any, Boolean, List, NoneType, Number, Record, RecordElement, Reference, Type, Union,
};
use pen::name_map::NameMap;
use pen::position::Position;

fn position() -> Position {
    Position::new("", 1, 1, "")
}

#[test]
fn resolve_reference_chain() {
    let mut types: NameMap<Type> = NameMap::new();
    types.insert("a".into(), Reference::new("b", position()).into());
    types.insert("b".into(), Number::new(position()).into());

    assert_eq!(
        type_resolver::resolve(&Reference::new("a", position()), &types),
        Ok(Number::new(position()).into())
    );
}

#[test]
fn fail_to_resolve_unknown_reference() {
    let types: NameMap<Type> = NameMap::new();

    assert_eq!(
        type_resolver::resolve(&Reference::new("a", position()), &types),
        Err(AnalysisError::TypeNotFound(Reference::new("a", position())))
    );
}

#[test]
fn fail_to_resolve_cyclic_references() {
    let mut types: NameMap<Type> = NameMap::new();
    types.insert("a".into(), Reference::new("b", position()).into());
    types.insert("b".into(), Reference::new("a", position()).into());

    assert!(matches!(
        type_resolver::resolve(&Reference::new("a", position()), &types),
        Err(AnalysisError::TypeNotFound(_))
    ));
}

#[test]
fn canonicalize_list_behind_reference() {
    let mut types: NameMap<Type> = NameMap::new();
    types.insert(
        "names".into(),
        List::new(NoneType::new(position()).into(), position()).into(),
    );

    assert_eq!(
        canonicalize_list(&Reference::new("names", position()).into(), &types),
        Ok(Some(List::new(NoneType::new(position()).into(), position())))
    );
    assert_eq!(
        canonicalize_list(&Number::new(position()).into(), &types),
        Ok(None)
    );
}

#[test]
fn fail_to_canonicalize_record_of_other_type() {
    let types: NameMap<Type> = NameMap::new();

    assert_eq!(
        canonicalize_record(&Number::new(position()).into(), &types),
        Ok(None)
    );
}

#[test]
fn compare_types_ignoring_positions() {
    let a: Type = Union::new(
        Number::new(Position::new("a.pen", 3, 4, "x")).into(),
        NoneType::new(position()).into(),
        position(),
    )
    .into();
    let b: Type = Union::new(
        Number::new(Position::new("b.pen", 7, 8, "y")).into(),
        NoneType::new(position()).into(),
        position(),
    )
    .into();

    assert!(type_equals(&a, &b));
    assert!(!type_equals(&a, &NoneType::new(position()).into()));
}

#[test]
fn create_union_of_members() {
    assert_eq!(create(&vec![], &position()), None);
    assert_eq!(
        create(&vec![Number::new(position()).into()], &position()),
        Some(Number::new(position()).into())
    );
    assert_eq!(
        create(
            &vec![
                Boolean::new(position()).into(),
                NoneType::new(position()).into()
            ],
            &position()
        ),
        Some(
            Union::new(
                Boolean::new(position()).into(),
                NoneType::new(position()).into(),
                position()
            )
            .into()
        )
    );
}

#[test]
fn subtract_member_from_union() {
    let types: NameMap<Type> = NameMap::new();

    assert_eq!(
        calculate(
            &Union::new(
                Number::new(position()).into(),
                NoneType::new(position()).into(),
                position()
            )
            .into(),
            &Number::new(position()).into(),
            &types
        ),
        Ok(Some(NoneType::new(position()).into()))
    );
}

#[test]
fn subtract_whole_union_leaves_nothing() {
    let types: NameMap<Type> = NameMap::new();

    assert_eq!(
        calculate(
            &Union::new(
                Number::new(position()).into(),
                NoneType::new(position()).into(),
                position()
            )
            .into(),
            &Union::new(
                NoneType::new(position()).into(),
                Number::new(position()).into(),
                position()
            )
            .into(),
            &types
        ),
        Ok(None)
    );
}

#[test]
fn subtraction_from_the_top_type_leaves_it_whole() {
    let types: NameMap<Type> = NameMap::new();

    assert_eq!(
        calculate(
            &Any::new(position()).into(),
            &Number::new(position()).into(),
            &types
        ),
        Ok(Some(Any::new(position()).into()))
    );
}

#[test]
fn resolve_record_fields() {
    let mut types: NameMap<Type> = NameMap::new();
    types.insert("r".into(), Record::new("r", position()).into());
    let mut records: NameMap<Vec<RecordElement>> = NameMap::new();
    records.insert(
        "r".into(),
        vec![RecordElement::new("x", NoneType::new(position()).into())],
    );

    assert_eq!(
        record_field_resolver::resolve(&Reference::new("r", position()).into(), &types, &records),
        Ok(&vec![RecordElement::new(
            "x",
            NoneType::new(position()).into()
        )])
    );
}

#[test]
fn fail_to_resolve_fields_of_unknown_record() {
    let types: NameMap<Type> = NameMap::new();
    let records: NameMap<Vec<RecordElement>> = NameMap::new();

    assert_eq!(
        record_field_resolver::resolve_record(&Record::new("r", position()), &records),
        Err(AnalysisError::RecordNotFound(Record::new("r", position())))
    );
}

#[test]
fn fail_to_resolve_fields_of_non_record() {
    let types: NameMap<Type> = NameMap::new();
    let records: NameMap<Vec<RecordElement>> = NameMap::new();

    assert_eq!(
        record_field_resolver::resolve(&Number::new(position()).into(), &types, &records),
        Err(AnalysisError::RecordExpected(Number::new(position()).into()))
    );
}
