use textkind::SmallString;

#[test]
fn basic() {
    let s = SmallString::try_from("1234567890123456").expect("full string stored");
    assert_eq!(s.as_str(), "1234567890123456");

    let s = SmallString::try_from("").expect("empty string stored");
    assert_eq!(s.as_str(), "");

    let s = SmallString::try_from("12345678901234567");
    assert!(s.is_none());
}
