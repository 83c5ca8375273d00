//! The three core traits: `Check` for validation, `Kind` for type-level
//! identity, and `Dynamic` for heap storage strategies.
use vstd::prelude::*;

verus! {

/// Value verification trait.
///
/// This trait must be implemented for a type for it to act as `Check` type
/// for a `Kind`.  A check is a stateless predicate over a string slice; the
/// predicate itself is the spec function `spec_valid`, and `spec_error` fixes
/// which error a rejected string is reported with.
pub trait Check {
    /// The error that will be returned when an invalid value is checked.
    type Error;

    /// The set of strings this check accepts.
    spec fn spec_valid(s: Seq<char>) -> bool;

    /// The error reported for a string this check rejects.
    spec fn spec_error(s: Seq<char>) -> Self::Error;

    /// Checks the given value for validity.
    ///
    /// Returns `Ok(())` exactly on the strings `spec_valid` accepts, and the
    /// error fixed by `spec_error` on every other string.
    fn check(value: &str) -> (r: Result<(), Self::Error>)
        ensures
            r is Ok <==> Self::spec_valid(value@),
            r matches Err(e) ==> e == Self::spec_error(value@),
    ;
}

/// Value identity trait.
///
/// Identifies a kind of text.  This provides type safety for different text
/// kinds, but also declares the checks that need to be done to verify if a
/// text is valid.
pub trait Kind {
    /// The check type determining if a given value is valid for this kind.
    type Check: Check;

    /// The description as a sequence of characters, for use in contracts.
    ///
    /// A kind overrides this together with `description`; the default pair
    /// describes the kind as nothing.
    open spec fn spec_description() -> Seq<char> {
        Seq::empty()
    }

    /// A simple description of this kind.  This is used in error messages.
    fn description() -> (r: &'static str)
        ensures
            r@ == Self::spec_description(),
    ;
}

/// Dynamic storage trait.
///
/// This trait is implemented for types that provide dynamic storage for text
/// values.  A storage value views as the sequence of characters it holds, and
/// every operation below says how the stored characters relate to its inputs.
pub trait Dynamic: Sized + Clone + View<V = Seq<char>> {
    /// Construct the dynamic storage from a `&str` slice.
    ///
    /// This will delegate to `from_string` by default.
    fn from_str(value: &str) -> (r: Self)
        ensures
            r@ == value@,
    {
        Self::from_string(value.to_owned())
    }

    /// Construct the dynamic storage from a `std::borrow::Cow<str>` value.
    ///
    /// This will delegate to `from_string` by default, building an owned
    /// buffer from a borrowed value first.
    fn from_cow(value: std::borrow::Cow<'_, str>) -> (r: Self)
        ensures
            r@ == value@,
    {
        match value {
            std::borrow::Cow::Borrowed(borrowed) => Self::from_string(borrowed.to_owned()),
            std::borrow::Cow::Owned(owned) => Self::from_string(owned),
        }
    }

    /// Construct the dynamic storage from a `String`, taking ownership.
    fn from_string(value: String) -> (r: Self)
        ensures
            r@ == value@,
    ;

    /// Return a `&str` view into the stored value.
    fn as_str(&self) -> (r: &str)
        ensures
            r@ == self@,
    ;

    /// Return a second handle to the same stored text.
    ///
    /// This is cloning with its contract spelled out: the new value holds the
    /// same characters.  The `Clone` implementations of the storage types go
    /// through the same machinery but carry no contract of their own.
    fn duplicate(&self) -> (r: Self)
        ensures
            r@ == self@,
    ;

    /// Attempt to extract a `String` from the dynamic storage.
    ///
    /// This will signal extraction failure by default.  Either way the caller
    /// ends up with the same characters: extracted into a `String`, or kept
    /// in the storage value handed back.
    fn try_extract_string(self) -> (r: Result<String, Self>)
        ensures
            r matches Ok(value) ==> value@ == self@,
            r matches Err(dynamic) ==> dynamic@ == self@,
    {
        Err(self)
    }

    /// Extract or construct a `String` from the value.
    ///
    /// This will try to extract a `String` via `try_extract_string` and if
    /// not possible construct a new `String` via `as_str` by default.
    fn into_string(self) -> (r: String)
        ensures
            r@ == self@,
    {
        match self.try_extract_string() {
            Ok(value) => value,
            Err(dynamic) => dynamic.as_str().to_owned(),
        }
    }
}

/// Construct one dynamic storage from another.
///
/// This is the cross-strategy constructor: the other storage's content is
/// extracted where possible (or copied into a new owned buffer otherwise)
/// and then adopted by the target storage type.
pub fn convert_dynamic<D: Dynamic, D2: Dynamic>(dynamic: D) -> (r: D2)
    ensures
        r@ == dynamic@,
{
    D2::from_string(dynamic.into_string())
}

/// Implementation of `Dynamic` for `String`.
impl Dynamic for String {
    /// Use the passed `String` as dynamic storage, unchanged.
    fn from_string(value: String) -> (r: Self)
        ensures
            r == value,
    {
        value
    }

    /// Fetch the `&str` slice from the `String`.
    fn as_str(&self) -> (r: &str) {
        self.as_str()
    }

    /// Copy the stored text.
    fn duplicate(&self) -> (r: Self) {
        self.clone()
    }

    /// Return the dynamic storage itself: the exclusively-owned strategy
    /// always reclaims its buffer, without copying.
    fn try_extract_string(self) -> (r: Result<String, Self>)
        ensures
            r == Ok::<String, String>(self),
    {
        Ok(self)
    }

    /// Return the dynamic storage itself.
    fn into_string(self) -> (r: String)
        ensures
            r == self,
    {
        self
    }
}

/// Implementation of `Dynamic` for reference counted `String`s.
impl Dynamic for std::rc::Rc<String> {
    /// Wrap the `String` in a `std::rc::Rc<_>`.
    fn from_string(value: String) -> (r: Self) {
        std::rc::Rc::new(value)
    }

    /// Fetch the `&str` slice from the `std::rc::Rc<String>`.
    fn as_str(&self) -> (r: &str) {
        rc_string_as_str(self)
    }

    /// Take another handle to the shared string.
    fn duplicate(&self) -> (r: Self) {
        rc_string_clone(self)
    }

    /// Extract the `String` from the `std::rc::Rc<String>` if the current
    /// handle to the shared storage is the only one.
    fn try_extract_string(self) -> (r: Result<String, Self>) {
        std::rc::Rc::try_unwrap(self)
    }
}

/// Implementation of `Dynamic` for atomically reference counted `String`s.
impl Dynamic for std::sync::Arc<String> {
    /// Wrap the `String` in a `std::sync::Arc<_>`.
    fn from_string(value: String) -> (r: Self) {
        std::sync::Arc::new(value)
    }

    /// Fetch the `&str` slice from the `std::sync::Arc<String>`.
    fn as_str(&self) -> (r: &str) {
        arc_string_as_str(self)
    }

    /// Take another handle to the shared string.
    fn duplicate(&self) -> (r: Self) {
        arc_string_clone(self)
    }

    /// Extract the `String` from the `std::sync::Arc<String>` if the current
    /// handle to the shared storage is the only one.
    fn try_extract_string(self) -> (r: Result<String, Self>) {
        arc_string_try_unwrap(self)
    }
}

/// Relies on `String::as_str` reached through `Rc`'s `Deref`: borrowing from
/// a shared handle yields the shared string itself.
#[verifier::external_body]
fn rc_string_as_str(value: &std::rc::Rc<String>) -> (r: &str)
    ensures
        r@ == value@,
{
    String::as_str(&**value)
}

/// Relies on `Rc::clone`: the new handle refers to the same string.
#[verifier::external_body]
fn rc_string_clone(value: &std::rc::Rc<String>) -> (r: std::rc::Rc<String>)
    ensures
        r@ == value@,
{
    std::rc::Rc::clone(value)
}

/// Relies on `String::as_str` reached through `Arc`'s `Deref`: borrowing from
/// a shared handle yields the shared string itself.
#[verifier::external_body]
fn arc_string_as_str(value: &std::sync::Arc<String>) -> (r: &str)
    ensures
        r@ == value@,
{
    String::as_str(&**value)
}

/// Relies on `Arc::clone`: the new handle refers to the same string.
#[verifier::external_body]
fn arc_string_clone(value: &std::sync::Arc<String>) -> (r: std::sync::Arc<String>)
    ensures
        r@ == value@,
{
    std::sync::Arc::clone(value)
}

/// Relies on `Arc::try_unwrap`: the string is handed out exactly when this
/// handle was the only one, and otherwise the handle comes back; the
/// characters are unchanged either way.
#[verifier::external_body]
fn arc_string_try_unwrap(value: std::sync::Arc<String>) -> (r: Result<
    String,
    std::sync::Arc<String>,
>)
    ensures
        r matches Ok(extracted) ==> extracted@ == value@,
        r matches Err(dynamic) ==> dynamic@ == value@,
{
    std::sync::Arc::try_unwrap(value)
}

} // verus!
