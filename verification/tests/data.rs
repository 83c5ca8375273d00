use textkind::Data;

#[test]
fn sso() {
    assert!(Data::<String>::from_str("").is_small());
    assert!(Data::<String>::from_str(&"X".repeat(16)).is_small());
    assert!(Data::<String>::from_str(&"X".repeat(17)).is_dynamic());
}

#[test]
fn static_construction() {
    assert!(Data::<String>::from_static_str("foo").is_static());
}
