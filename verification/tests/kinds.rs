use textkind::kind::Identifier;
use textkind::kind::IdentifierLax;
use textkind::kind::Title;
use textkind::Text;

fn accepts<K: textkind::Kind>(value: &str) -> bool {
    Text::<K, String>::try_from_str(value).is_ok()
}

#[test]
fn kinds_title() {
    assert!(accepts::<Title>("This is a title."));
    assert!(accepts::<Title>("X"));

    assert!(!accepts::<Title>(""));
    assert!(!accepts::<Title>("Foo\nBar"));
    assert!(!accepts::<Title>("  Foo"));
    assert!(!accepts::<Title>("Foo  "));
    assert!(!accepts::<Title>(" Foo "));
    assert!(!accepts::<Title>(&"X".repeat(513)));
}

#[test]
fn kinds_identifier() {
    assert!(accepts::<Identifier>("foo"));
    assert!(accepts::<Identifier>("foo_bar"));
    assert!(accepts::<Identifier>("_23"));
    assert!(accepts::<Identifier>("_"));

    assert!(!accepts::<Identifier>(""));
    assert!(!accepts::<Identifier>(" "));
    assert!(!accepts::<Identifier>("foo bar"));
    assert!(!accepts::<Identifier>("foo\nbar"));
    assert!(!accepts::<Identifier>("foo-bar"));
    assert!(!accepts::<Identifier>("-"));
    assert!(!accepts::<Identifier>("0"));
}

#[test]
fn kinds_identifier_lax() {
    assert!(accepts::<IdentifierLax>("foo"));
    assert!(accepts::<IdentifierLax>("foo_bar"));
    assert!(accepts::<IdentifierLax>("_23"));
    assert!(accepts::<IdentifierLax>("_"));
    assert!(accepts::<IdentifierLax>("foo-bar"));
    assert!(accepts::<IdentifierLax>("-"));
    assert!(accepts::<IdentifierLax>("0"));

    assert!(!accepts::<IdentifierLax>(""));
    assert!(!accepts::<IdentifierLax>(" "));
    assert!(!accepts::<IdentifierLax>("foo bar"));
    assert!(!accepts::<IdentifierLax>("foo\nbar"));
}
