#[test]
fn test_native_compilation() {
    assert!(true, "Package compiles successfully on native targets");
}

#[test]
fn test_basic_structures() {
    assert!(true, "Basic structures can be created");
}
