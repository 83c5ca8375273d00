use textkind::Identifier;
use textkind::IdentifierLax;
use textkind::Modified;
use textkind::Title;

#[test]
fn texts_title() {
    for valid in &["This is a title.", "X"] {
        let text = Title::<String>::try_from_str(valid).ok().expect("valid value");
        assert_eq!(text.as_str(), *valid);
    }

    let long = "X".repeat(513);
    for invalid in &["", "Foo\nBar", " Foo", "Foo ", " Foo ", &long] {
        Title::<String>::try_from_str(invalid).err().expect("invalid value");
    }
}

#[test]
fn texts_identifier() {
    for valid in &["foo", "Foo_Bar", "_23", "_"] {
        let text = Identifier::<String>::try_from_str(valid).ok().expect("valid value");
        assert_eq!(text.as_str(), *valid);
    }

    let long = "X".repeat(513);
    for invalid in &["", " ", "a b", "a\nb", "a-b", "-", "0", &long] {
        Identifier::<String>::try_from_str(invalid).err().expect("invalid value");
    }
}

#[test]
fn texts_identifier_lax() {
    for valid in &["foo", "Foo_Bar", "_23", "_", "-", "0"] {
        let text = IdentifierLax::<String>::try_from_str(valid).ok().expect("valid value");
        assert_eq!(text.as_str(), *valid);
    }

    let long = "X".repeat(513);
    for invalid in &["", " ", "a b", "a\nb", &long] {
        IdentifierLax::<String>::try_from_str(invalid).err().expect("invalid value");
    }
}

#[test]
fn modified() {
    let modified: Modified<String> = "foo".to_string().into();
    assert_eq!(modified, Modified::New("foo".to_string()));

    let modified: Modified<String> = "foo".into();
    assert_eq!(modified, Modified::Sub("foo"));
}

#[test]
fn clone() {
    let text = Title::<String>::try_from_str("foo").ok().unwrap();
    let text2 = text.clone();
    assert_eq!(text, text2);
}

#[test]
fn from_str() {
    let _: Title<String> = "foo".parse().ok().expect("valid parse");

    let result: Result<Title<String>, _> = "foo\nbar".parse();
    assert!(result.is_err());
}

#[test]
fn eq() {
    let text = Title::<String>::try_from_str("foo").ok().unwrap();
    let text2 = Title::<String>::try_from_str("foo").ok().unwrap();
    let text_diff = Title::<String>::try_from_str("bar").ok().unwrap();
    assert_eq!(text, text2);
    assert_ne!(text, text_diff);
}

#[test]
fn ord() {
    let a = Title::<String>::try_from_str("a").ok().unwrap();
    let b = Title::<String>::try_from_str("b").ok().unwrap();
    assert!(a < b);
    assert!(b > a);
}

#[test]
fn hash() {
    let mut set = std::collections::HashSet::new();
    let a = Title::<String>::try_from_str("foo").ok().unwrap();
    let b = Title::<String>::try_from_str("bar").ok().unwrap();

    set.insert(a.clone());
    assert!(set.get(&a).is_some());
    assert!(set.get(&b).is_none());
}
