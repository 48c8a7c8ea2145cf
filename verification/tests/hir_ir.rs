use pen::hir::ir::TypeAlias;
use pen::hir::test_ir::position;
use pen::hir::types::{NoneType, Type};
use pen::name_map::NameMap;

#[test]
fn type_alias_keeps_its_parts() {
    let alias = TypeAlias::new(
        "name",
        "original",
        NoneType::new(position()).into(),
        true,
        false,
        position(),
    );

    assert_eq!(alias.name(), "name");
    assert_eq!(alias.original_name(), "original");
    assert_eq!(alias.type_(), &Type::NoneType(NoneType::new(position())));
    assert!(alias.is_public());
    assert!(!alias.is_external());
}

#[test]
fn type_alias_without_source() {
    let alias = TypeAlias::without_source("name", NoneType::new(position()).into(), false, true);

    assert_eq!(alias.name(), "name");
    assert_eq!(alias.original_name(), "");
    assert!(!alias.is_public());
    assert!(alias.is_external());
}

#[test]
fn name_map_shadows_earlier_bindings() {
    let mut map: NameMap<u64> = NameMap::new();

    assert_eq!(map.get(&"x".to_string()), None);

    map.insert("x".into(), 1);
    map.insert("y".into(), 2);
    map.insert("x".into(), 3);

    assert_eq!(map.get(&"x".to_string()), Some(&3));
    assert_eq!(map.get(&"y".to_string()), Some(&2));

    map.truncate(2);
    assert_eq!(map.get(&"x".to_string()), Some(&1));
}
