use pen::reference_count::{
    get_clone_function_name, get_clone_unboxed_function_name, get_drop_function_name,
    get_synchronize_function_name,
};

#[test]
fn clone_function_name() {
    assert_eq!(get_clone_function_name("foo"), "mir:clone:foo");
}

#[test]
fn clone_unboxed_function_name() {
    assert_eq!(get_clone_unboxed_function_name("foo"), "mir:clone:unboxed:foo");
}

#[test]
fn drop_function_name() {
    assert_eq!(get_drop_function_name("foo"), "mir:drop:foo");
}

#[test]
fn synchronize_function_name() {
    assert_eq!(get_synchronize_function_name("foo"), "mir:synchronize:foo");
}
