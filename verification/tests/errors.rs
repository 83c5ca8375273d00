use textkind::check::AndError;
use textkind::check::NoControlError;
use textkind::ErrorMessage;
use textkind::Title;

#[test]
fn error_with_value() {
    let error = Title::<String>::try_from_string("a\nb".into())
        .err()
        .expect("invalid value");
    assert_eq!(error.value(), "a\nb");
    let msg = error.message();
    assert_eq!(&error.message(), "invalid title");
    assert!(matches!(
        error.0,
        AndError::Err2(AndError::Err2(AndError::Err1(NoControlError { .. })))
    ));
    assert!(!error.message().contains("control"));
    assert!(error.0.message().contains("control"));

    let error_without = error.clone().without_value();
    assert_eq!(msg, error_without.message());

    let (error_without, value) = error.clone().split();
    assert_eq!(msg, error_without.message());
    assert_eq!(&value, "a\nb");

    let mapped = error.clone().map_value(|value| value.repeat(2));
    assert_eq!(msg, error_without.message());
    assert_eq!(mapped.value(), "a\nba\nb");

    let other_error = Title::<String>::try_from_string("a\nb".into())
        .err()
        .expect("invalid value");
    assert_eq!(error.0, other_error.0);
    assert_eq!(error.value(), other_error.value());

    let other_error_diff = Title::<String>::try_from_string("a\nbc".into())
        .err()
        .expect("invalid value");
    assert_ne!(error.value(), other_error_diff.value());
}

#[test]
fn error() {
    let error = Title::<String>::try_from_str("a\nb").err().expect("invalid value");
    assert_eq!(&error.message(), "invalid title");
    assert!(matches!(
        error.0,
        AndError::Err2(AndError::Err2(AndError::Err1(NoControlError { .. })))
    ));
    assert!(!error.message().contains("control"));
    assert!(error.0.message().contains("control"));

    let other_error = Title::<String>::try_from_str("a\nb").err().expect("invalid value");
    assert_eq!(error.0, other_error.0);

    let other_error_diff = Title::<String>::try_from_str("a\nbc").err().expect("invalid value");
    assert_eq!(error.0, other_error_diff.0);

    let with_value = error.clone().with_value("foo");
    assert_eq!(*with_value.value(), "foo");
    assert_eq!(&with_value.message(), "invalid title");
    assert!(matches!(
        with_value.0,
        AndError::Err2(AndError::Err2(AndError::Err1(NoControlError { .. })))
    ));
    assert!(!with_value.message().contains("control"));
    assert!(with_value.0.message().contains("control"));
}
