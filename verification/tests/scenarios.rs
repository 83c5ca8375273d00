use textkind::check::Identifier as IdentifierCheck;
use textkind::check::IdentifierError;
use textkind::check::IdentifierLax as IdentifierLaxCheck;
use textkind::check::MaxBytes256;
use textkind::check::MaxBytesError;
use textkind::check::NoControlError;
use textkind::check::NoWhitespace;
use textkind::check::NoWhitespaceError;
use textkind::check::NotEmptyError;
use textkind::check::Trimmed;
use textkind::check::TrimmedBothError;
use textkind::check::TrimmedError;
use textkind::check::WhenTrimmed;
use textkind::kind;
use textkind::Check;
use textkind::ErrorMessage;
use textkind::Identifier;
use textkind::Text;
use textkind::Title;

#[test]
fn identifier_start_and_rest() {
    let error = IdentifierCheck::check("0foo").err().expect("digit must not start");
    assert_eq!(error, IdentifierError::InvalidStartChar('0'));

    assert!(IdentifierCheck::check("foo0").is_ok());
}

#[test]
fn max_bytes_boundary() {
    let error = MaxBytes256::check(&"X".repeat(257)).err().expect("one byte over the limit");
    assert_eq!(error, MaxBytesError { max: 256, len: 257 });

    assert!(MaxBytes256::check(&"X".repeat(256)).is_ok());
}

#[test]
fn title_keeps_rejected_value() {
    let error = Title::<String>::try_from_string("  Foo  ".to_string())
        .err()
        .expect("whitespace on both sides");
    assert!(matches!(
        error.0,
        textkind::check::AndError::Err2(textkind::check::AndError::Err2(
            textkind::check::AndError::Err2(TrimmedError::Both(TrimmedBothError))
        ))
    ));
    let (_, value) = error.split();
    assert_eq!(&value, "  Foo  ");
}

#[test]
fn identifier_into_title() {
    let identifier = Identifier::<String>::try_from_str("some_identifier23").ok().unwrap();
    let title: Text<kind::Title, String> =
        identifier.try_kind_transition().ok().expect("identifiers are valid titles");
    assert_eq!(title.as_str(), "some_identifier23");
}

#[test]
fn string_round_trip() {
    let first = Title::<String>::try_from_str("Some Title").ok().unwrap();
    let copy = first.clone();
    let rebuilt = Title::<String>::try_from_string(first.into_string()).ok().expect(
        "a valid text stays valid",
    );
    assert_eq!(rebuilt.as_str(), copy.as_str());
}

#[test]
fn exact_messages() {
    assert_eq!(&NotEmptyError.message(), "value is empty");

    let error = NoWhitespace::check("foo bar baz").err().unwrap();
    assert_eq!(
        &error.message(),
        "value contains whitespace (value contains 2 whitespace sequence(s))"
    );

    assert_eq!(
        &NoControlError { control_count: 12 }.message(),
        "value contains 12 control character(s)"
    );

    assert_eq!(
        &MaxBytesError { max: 1024, len: 1025 }.message(),
        "length of 1025 exceeds limit of 1024"
    );

    assert_eq!(
        &IdentifierError::InvalidStartChar('0').message(),
        "value begins with invalid character `0`"
    );
}

#[test]
fn escaped_message_characters() {
    let error = IdentifierLaxCheck::check("a\nb").err().expect("newline is not lax");
    assert_eq!(error, textkind::check::IdentifierLaxError::InvalidChar('\n'));
    assert_eq!(&error.message(), "value contains invalid character `\\n`");
}

#[test]
fn multi_digit_counts() {
    let error = NoWhitespace::check("a b c d e f g h i j k").err().unwrap();
    assert_eq!(error, NoWhitespaceError { whitespace_count: 10 });
    assert!(error.message().contains("10 whitespace sequence(s)"));
}

#[test]
fn report_with_cause() {
    let error = Title::<String>::try_from_str("").err().expect("empty title");
    assert_eq!(&error.message_with_cause(), "invalid title because value is empty");
}

#[test]
fn trimming_inside_checks() {
    // `Trimmed` accepts exactly the strings that trimming leaves unchanged,
    // while `WhenTrimmed` judges the trimmed remainder.
    assert!(Trimmed::check("tabs\tinside are fine").is_ok());
    assert!(Trimmed::check("\u{a0}unicode whitespace counts").is_err());
    assert!(WhenTrimmed::<NoWhitespace>::check("  word\t").is_ok());
    assert!(WhenTrimmed::<NoWhitespace>::check("  two words ").is_err());
}

#[test]
fn sixteen_byte_boundary_texts() {
    let inline = Title::<String>::try_from_str("0123456789abcdef").ok().unwrap();
    assert_eq!(inline.as_str(), "0123456789abcdef");

    let heap = Title::<String>::try_from_str("0123456789abcdefg").ok().unwrap();
    assert_eq!(heap.as_str(), "0123456789abcdefg");

    let multibyte = Title::<String>::try_from_str("\u{00e9}\u{00e9}\u{00e9}\u{00e9}").ok().unwrap();
    assert_eq!(multibyte.as_str(), "\u{00e9}\u{00e9}\u{00e9}\u{00e9}");
}
