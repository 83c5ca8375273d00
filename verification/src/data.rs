//! The tri-modal representation underlying a validated text value.
use vstd::prelude::*;
use crate::check::byte_length;
use crate::small::SmallString;
use crate::small::SMALL_STRING_BUF;
use crate::traits::convert_dynamic;
use crate::Dynamic;

verus! {

/// Data encapsulation value.
///
/// This is the type that allows `&'static str` values to avoid allocation.
///
/// The main advantage of dealing with `Data<T>` values is that static values
/// can be preserved for all dynamic storages, not just `String` as with
/// `std::borrow::Cow`.
#[derive(Debug, Hash)]
pub enum Data<T> {
    /// Text is a static value.
    Static(&'static str),
    /// Text is a dynamic value.
    Dynamic(T),
    /// Text is a small string fitting in an inline buffer.
    Small(SmallString),
}

impl<T: Dynamic> View for Data<T> {
    type V = Seq<char>;

    open spec fn view(&self) -> Seq<char> {
        match self {
            Data::Static(value) => value@,
            Data::Dynamic(dynamic) => dynamic@,
            Data::Small(small) => small@,
        }
    }
}

impl<T: Dynamic> Clone for Data<T> {
    /// The clone holds the same characters in the same representation;
    /// static and inline values are copied outright.
    fn clone(&self) -> (r: Self)
        ensures
            r@ == self@,
            self is Static ==> r == *self,
            self is Small ==> r == *self,
            self is Dynamic ==> r is Dynamic,
    {
        match self {
            Data::Static(value) => Data::Static(value),
            Data::Dynamic(dynamic) => Data::Dynamic(dynamic.duplicate()),
            Data::Small(small) => Data::Small(*small),
        }
    }
}

impl<T: Dynamic> Data<T> {
    /// Create a static data value.
    pub fn from_static_str(value: &'static str) -> (r: Data<T>)
        ensures
            r@ == value@,
            r is Static,
    {
        Data::Static(value)
    }

    /// Create a small or dynamic data value from a string slice.
    ///
    /// The inline representation is chosen exactly when the value is at most
    /// 16 bytes long; anything longer goes to the dynamic storage.
    pub fn from_str(value: &str) -> (r: Data<T>)
        ensures
            r@ == value@,
            r is Small <==> byte_length(value@) <= SMALL_STRING_BUF,
            r is Dynamic <==> byte_length(value@) > SMALL_STRING_BUF,
    {
        match SmallString::try_from(value) {
            Some(small) => Data::Small(small),
            None => Data::Dynamic(T::from_str(value)),
        }
    }

    /// Create a dynamic data value from a string.
    pub fn from_string(value: String) -> (r: Data<T>)
        ensures
            r@ == value@,
            r is Dynamic,
    {
        Data::Dynamic(T::from_string(value))
    }

    /// Wrap an existing dynamic data storage.
    pub fn from_dynamic(value: T) -> (r: Data<T>)
        ensures
            r == Data::<T>::Dynamic(value),
            r@ == value@,
    {
        Data::Dynamic(value)
    }

    /// Create a dynamic or small data value from a possibly owned value.
    ///
    /// An owned buffer is handed to the dynamic storage; a borrowed slice is
    /// stored inline exactly when it fits the small buffer.
    pub fn from_cow(value: std::borrow::Cow<'_, str>) -> (r: Data<T>)
        ensures
            r@ == value@,
            !(r is Static),
            value matches std::borrow::Cow::Owned(_) ==> r is Dynamic,
            value matches std::borrow::Cow::Borrowed(borrowed) ==> (r is Small <==> byte_length(
                borrowed@,
            ) <= SMALL_STRING_BUF),
    {
        match value {
            std::borrow::Cow::Owned(owned) => Data::from_string(owned),
            std::borrow::Cow::Borrowed(borrowed) => Data::from_str(borrowed),
        }
    }

    /// Create a data value from a `std::borrow::Cow<'static, str>`,
    /// storing a borrowed value as a static reference and an owned buffer in
    /// the dynamic storage.
    pub fn from_static_str_cow(value: std::borrow::Cow<'static, str>) -> (r: Data<T>)
        ensures
            r@ == value@,
            r is Static <==> value matches std::borrow::Cow::Borrowed(_),
            value matches std::borrow::Cow::Owned(_) ==> r is Dynamic,
    {
        match value {
            std::borrow::Cow::Owned(owned) => Data::from_string(owned),
            std::borrow::Cow::Borrowed(borrowed) => Data::from_static_str(borrowed),
        }
    }

    /// Return a `&str` slice view into the stored text.
    ///
    /// An inline value never holds more than the small buffer's 16 bytes.
    pub fn as_str(&self) -> (r: &str)
        ensures
            r@ == self@,
            self is Small ==> byte_length(self@) <= SMALL_STRING_BUF,
    {
        match self {
            Data::Static(value) => value,
            Data::Dynamic(dynamic) => dynamic.as_str(),
            Data::Small(small) => small.as_str(),
        }
    }

    /// Convert to another dynamic storage.
    ///
    /// Only the dynamic variant is remapped; static and inline values pass
    /// through unchanged.
    pub fn convert<U: Dynamic>(self) -> (r: Data<U>)
        ensures
            r@ == self@,
            self matches Data::Static(value) ==> r == Data::<U>::Static(value),
            self matches Data::Small(small) ==> r == Data::<U>::Small(small),
            self is Dynamic ==> r is Dynamic,
    {
        match self {
            Data::Static(value) => Data::Static(value),
            Data::Dynamic(dynamic) => Data::Dynamic(convert_dynamic(dynamic)),
            Data::Small(small) => Data::Small(small),
        }
    }

    /// Turn the data value into a string, possibly extracting it without
    /// reallocating.
    pub fn into_string(self) -> (r: String)
        ensures
            r@ == self@,
    {
        match self {
            Data::Static(value) => value.to_owned(),
            Data::Dynamic(dynamic) => dynamic.into_string(),
            Data::Small(small) => small.as_str().to_owned(),
        }
    }

    /// Turn the data value into a `std::borrow::Cow<'static, str>`.
    ///
    /// A static value comes back borrowed; both other representations are
    /// turned into an owned string.
    pub fn into_static_str_cow(self) -> (r: std::borrow::Cow<'static, str>)
        ensures
            r@ == self@,
            self is Static <==> r matches std::borrow::Cow::Borrowed(_),
    {
        match self {
            Data::Static(value) => std::borrow::Cow::Borrowed(value),
            Data::Dynamic(dynamic) => std::borrow::Cow::Owned(dynamic.into_string()),
            Data::Small(small) => std::borrow::Cow::Owned(small.as_str().to_owned()),
        }
    }

    /// Turn the data value into a dynamic storage, possibly simply
    /// unwrapping.
    ///
    /// A held dynamic value is returned as it is; the other representations
    /// are materialized into a new storage value.
    pub fn into_dynamic(self) -> (r: T)
        ensures
            r@ == self@,
            self matches Data::Dynamic(dynamic) ==> r == dynamic,
    {
        match self {
            Data::Static(value) => T::from_str(value),
            Data::Dynamic(value) => value,
            Data::Small(value) => T::from_str(value.as_str()),
        }
    }

    /// Check if data is a static str value.
    pub fn is_static(&self) -> (r: bool)
        ensures
            r == (self is Static),
    {
        if let Data::Static(_) = self {
            true
        } else {
            false
        }
    }

    /// Check if data is a dynamic storage value.
    pub fn is_dynamic(&self) -> (r: bool)
        ensures
            r == (self is Dynamic),
    {
        if let Data::Dynamic(_) = self {
            true
        } else {
            false
        }
    }

    /// Check if data is a small string value.
    pub fn is_small(&self) -> (r: bool)
        ensures
            r == (self is Small),
    {
        if let Data::Small(_) = self {
            true
        } else {
            false
        }
    }
}

} // verus!
