use std::rc::Rc;
use std::sync::Arc;
use textkind::check;
use textkind::ConvertError;
use textkind::ConvertFrom;
use textkind::ConvertResult;
use textkind::Data;
use textkind::Dynamic;
use textkind::Error;
use textkind::ErrorWithValue;
use textkind::Kind;
use textkind::Text;
use textkind::TryConvertFrom;

struct TestKind;

impl Kind for TestKind {
    type Check = check::NotEmpty;

    fn description() -> &'static str {
        "test"
    }
}

struct OtherKind;

impl Kind for OtherKind {
    type Check = check::NoControl;

    fn description() -> &'static str {
        "other"
    }
}

struct SameCheckKind;

impl Kind for SameCheckKind {
    type Check = check::NotEmpty;

    fn description() -> &'static str {
        "same check"
    }
}

impl TryConvertFrom<OtherKind> for TestKind {
    type Error = Error<TestKind>;

    fn try_convert_from<D: Dynamic>(
        other: Text<OtherKind, D>,
    ) -> ConvertResult<OtherKind, TestKind, D, Error<TestKind>> {
        match other.try_kind_transition() {
            Ok(value) => Ok(value),
            Err(error) => Err(error.into()),
        }
    }
}

impl ConvertFrom<TestKind> for SameCheckKind {
    fn convert_from<D: Dynamic>(other: Text<TestKind, D>) -> Text<SameCheckKind, D> {
        other.kind_transition()
    }
}

type Test = Text<TestKind, String>;

#[test]
fn try_from_static_str() {
    let text = Test::try_from_static_str("foo").ok().expect("valid value");
    assert_eq!(text.as_str(), "foo");

    let error = Test::try_from_static_str("").err().expect("invalid value");
    assert_eq!(error.0, check::NotEmptyError);
}

#[test]
fn try_from_str() {
    let string = "foo".to_string();
    let text = Test::try_from_str(&string).ok().expect("valid value");
    assert_eq!(text.as_str(), "foo");

    let string = String::new();
    let error = Test::try_from_str(&string).err().expect("invalid value");
    assert_eq!(error.0, check::NotEmptyError);
}

#[test]
fn try_from_str_cow_owned() {
    let string = "foo".to_string();
    let text = Test::try_from_str_cow(string.into()).ok().expect("valid value");
    assert_eq!(text.as_str(), "foo");

    let string = String::new();
    let error = Test::try_from_str_cow(string.into()).err().expect("invalid value");
    assert_eq!(error.0, check::NotEmptyError);
    assert_eq!(error.value(), "");
}

#[test]
fn try_from_str_cow_borrowed() {
    let string = "foo".to_string();
    let text = Test::try_from_str_cow(std::borrow::Cow::Borrowed(&string)).ok().expect("valid value");
    assert_eq!(text.as_str(), "foo");

    let string = String::new();
    let error = Test::try_from_str_cow(std::borrow::Cow::Borrowed(&string))
        .err()
        .expect("invalid value");
    assert_eq!(error.0, check::NotEmptyError);
    assert_eq!(error.value(), "");
}

#[test]
fn try_from_static_str_cow_owned() {
    let string = "foo".to_string();
    let text = Test::try_from_static_str_cow(string.into()).ok().expect("valid value");
    assert_eq!(text.as_str(), "foo");

    let string = String::new();
    let error = Test::try_from_static_str_cow(string.into()).err().expect("invalid value");
    assert_eq!(error.0, check::NotEmptyError);
    assert_eq!(error.value(), "");
}

#[test]
fn try_from_static_str_cow_borrowed() {
    let text = Test::try_from_static_str_cow("foo".into()).ok().expect("valid value");
    assert_eq!(text.as_str(), "foo");

    let error = Test::try_from_static_str_cow("".into()).err().expect("invalid value");
    assert_eq!(error.0, check::NotEmptyError);
    assert_eq!(error.value(), "");
}

#[test]
fn try_from_string() {
    let string = "foo".to_string();
    let text = Test::try_from_string(string).ok().expect("valid value");
    assert_eq!(text.as_str(), "foo");

    let error = Test::try_from_string(String::new()).err().expect("invalid value");
    assert_eq!(error.0, check::NotEmptyError);
    assert_eq!(error.value(), "");
}

#[test]
fn try_from_data() {
    let dynamic: String = Dynamic::from_str("foo");
    let text = Test::try_from_data(Data::Dynamic(dynamic)).ok().expect("valid value");
    assert_eq!(text.as_str(), "foo");

    let empty: String = Dynamic::from_str("");
    let error = Test::try_from_data(Data::Dynamic(empty)).err().expect("invalid value");
    assert_eq!(error.0, check::NotEmptyError);
    assert_eq!(error.value().as_str(), "");
}

#[test]
fn try_from_dynamic() {
    let dynamic: String = Dynamic::from_str("foo");
    let text = Test::try_from_dynamic(dynamic).ok().expect("valid value");
    assert_eq!(text.as_str(), "foo");

    let empty: String = Dynamic::from_str("");
    let error = Test::try_from_dynamic(empty).err().expect("invalid value");
    assert_eq!(error.0, check::NotEmptyError);
    assert_eq!(error.value().as_str(), "");
}

#[test]
fn try_convert_from() {
    let other = Text::<OtherKind, String>::try_from_str("foo").ok().unwrap();
    let text = match Test::try_convert_from(other) {
        Ok(text) => text,
        Err(ConvertError(Error(check::NotEmptyError), _value)) => {
            panic!("value unexpectedly invalid")
        },
    };
    assert_eq!(text.as_str(), "foo");

    let other = Text::<OtherKind, String>::try_from_str("").ok().unwrap();
    match Test::try_convert_from(other) {
        Ok(_text) => panic!("unexpectedly valid"),
        Err(ConvertError(Error(check::NotEmptyError), _value)) => (),
    };
}

#[test]
fn try_convert_into() {
    let other = Text::<OtherKind, String>::try_from_str("foo").ok().unwrap();
    let text = match other.try_convert_into::<TestKind>() {
        Ok(text) => text,
        Err(ConvertError(Error(check::NotEmptyError), _value)) => {
            panic!("value unexpectedly invalid")
        },
    };
    assert_eq!(text.as_str(), "foo");

    let other = Text::<OtherKind, String>::try_from_str("").ok().unwrap();
    match other.try_convert_into::<TestKind>() {
        Ok(_text) => panic!("unexpectedly valid"),
        Err(ConvertError(Error(check::NotEmptyError), _value)) => (),
    };
}

#[test]
fn convert_from() {
    let text = Test::try_from_str("foo").ok().unwrap();
    let other = Text::<SameCheckKind, String>::convert_from(text);
    assert_eq!(other.as_str(), "foo");
}

#[test]
fn convert_into() {
    let text = Test::try_from_str("foo").ok().unwrap();
    let other: Text<SameCheckKind, _> = text.convert_into();
    assert_eq!(other.as_str(), "foo");
}

#[test]
fn into_string() {
    let text = Test::try_from_str("foo").ok().unwrap();
    let string = text.into_string();
    assert_eq!(&string, "foo");
}

#[test]
fn into_static_str_cow() {
    let text = Test::try_from_str("a text too long for the inline buffer").ok().unwrap();
    let cow = text.into_static_str_cow();
    if let std::borrow::Cow::Borrowed(_) = cow {
        panic!("borrowed instead of owned");
    }

    let text = Test::try_from_static_str("foo").ok().unwrap();
    let cow = text.into_static_str_cow();
    if let std::borrow::Cow::Owned(_) = cow {
        panic!("owned instead of borrowed");
    }
}

#[test]
fn into_data() {
    let text = Test::try_from_static_str("foo").ok().unwrap();
    let data = text.into_data();
    assert_eq!(data.as_str(), "foo");
    match data {
        Data::Static(_) => (),
        _ => panic!("non static data variant"),
    }
}

#[test]
fn into_dynamic() {
    let text = Test::try_from_str("foo").ok().unwrap();
    let string = text.into_dynamic();
    assert_eq!(string.as_str(), "foo");
}

#[test]
fn try_kind_transition() {
    let text = Test::try_from_str("foo").ok().unwrap();
    let _: Text<OtherKind, _> = text.try_kind_transition().ok().expect("kind transition");

    let text = Test::try_from_str("foo\nbar").ok().unwrap();
    let result: Result<Text<OtherKind, _>, _> = text.try_kind_transition();
    let error = result.err().expect("error result");
    let _: &Test = error.value();
}

#[test]
fn kind_transition() {
    let text = Test::try_from_str("foo").ok().unwrap();
    let other: Text<SameCheckKind, _> = text.kind_transition();
    assert_eq!(other.as_str(), "foo");
}

#[test]
fn storage_transition_pairs() {
    let text = Text::<TestKind, String>::try_from_str("foo").ok().unwrap();
    let same: Text<TestKind, String> = text.storage_transition();
    assert_eq!(same.as_str(), "foo");

    let rc: Text<TestKind, Rc<String>> = same.storage_transition();
    assert_eq!(rc.as_str(), "foo");

    let arc: Text<TestKind, Arc<String>> = rc.storage_transition();
    assert_eq!(arc.as_str(), "foo");

    let back: Text<TestKind, String> = arc.storage_transition();
    assert_eq!(back.as_str(), "foo");
}

#[test]
fn rc_storage() {
    let long = "a value too long for the inline buffer";
    let text = Text::<TestKind, Rc<String>>::try_from_str(long).ok().expect("valid value");
    assert_eq!(text.as_str(), long);

    let copy = text.clone();
    assert_eq!(copy.as_str(), long);

    // two handles share the string, so neither can extract it without a copy
    let rc = text.into_dynamic();
    assert_eq!(rc.as_str(), long);
    let string = copy.into_string();
    assert_eq!(&string, long);

    // a sole handle hands its string out directly
    let sole = Text::<TestKind, Rc<String>>::try_from_str(long).ok().expect("valid value");
    assert_eq!(&sole.into_string(), long);
}

#[test]
fn arc_storage() {
    let long = "a value too long for the inline buffer";
    let shared = Arc::new(long.to_string());
    let text = Text::<TestKind, Arc<String>>::try_from_dynamic(shared).ok().expect("valid value");
    assert_eq!(text.as_str(), long);

    let copy = text.clone();
    assert_eq!(copy.as_str(), long);
    drop(copy);

    // the sole handle can give the string back without a copy
    let string = text.into_string();
    assert_eq!(&string, long);

    let empty = Arc::new(String::new());
    let error = Text::<TestKind, Arc<String>>::try_from_dynamic(empty).err().expect(
        "invalid value",
    );
    assert_eq!(error.value().as_str(), "");
}

#[test]
fn string_extract_string() {
    let extracted = <String as Dynamic>::try_extract_string("foo".to_string());
    assert_eq!(extracted, Ok("foo".to_string()));
}

#[test]
fn error_interop_round_trip() {
    let text = Test::try_from_str("foo\nbar").ok().unwrap();
    let error: ErrorWithValue<OtherKind, Test> =
        text.try_kind_transition::<OtherKind>().err().expect("invalid for the other kind");
    let convert_error: ConvertError<TestKind, String, Error<OtherKind>> = error.into();
    assert_eq!(convert_error.1.as_str(), "foo\nbar");
    let back: ErrorWithValue<OtherKind, Test> = convert_error.into();
    assert_eq!(back.value().as_str(), "foo\nbar");
}
