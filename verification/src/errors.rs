//! Structured failure values, with and without an attached rejected value.
use vstd::prelude::*;
use vstd::string::StringExecFns;
use crate::message::ErrorMessage;
use crate::Check;
use crate::Kind;

verus! {

/// An error with an associated value.
///
/// This error will be returned when the validation of an owned value failed.
/// It allows the owned value to be accessed or extracted.
///
/// It is a tuple containing the actual error as defined by the `Check` type
/// of the `Kind` type parameter, and the value.
pub struct ErrorWithValue<K, V>(pub <<K as Kind>::Check as Check>::Error, pub V) where K: Kind;

impl<K: Kind, V> ErrorWithValue<K, V> {
    /// Discard the value and return an `Error`, which is the error variant
    /// without an associated value.
    pub fn without_value(self) -> (r: Error<K>)
        ensures
            r.0 == self.0,
    {
        Error(self.0)
    }

    /// Extract the value into a tuple containing an error without a value,
    /// and the extracted value.
    pub fn split(self) -> (r: (Error<K>, V))
        ensures
            r.0.0 == self.0,
            r.1 == self.1,
    {
        (Error(self.0), self.1)
    }

    /// Access the value associated with the error.
    pub fn value(&self) -> (r: &V)
        ensures
            r == self.1,
    {
        &self.1
    }

    /// Map the associated value to another type.
    pub fn map_value<V2, F: FnOnce(V) -> V2>(self, map: F) -> (r: ErrorWithValue<K, V2>)
        requires
            map.requires((self.1,)),
        ensures
            r.0 == self.0,
            map.ensures((self.1,), r.1),
    {
        ErrorWithValue(self.0, map(self.1))
    }
}

impl<K: Kind, V> ErrorMessage for ErrorWithValue<K, V> {
    /// The default rendering deliberately hides the predicate detail: it
    /// only names the kind that rejected the value.
    open spec fn spec_message(&self) -> Seq<char> {
        "invalid "@ + K::spec_description()
    }

    fn message(&self) -> (r: String) {
        let mut s = "invalid ".to_owned();
        s.append(K::description());
        s
    }
}

impl<K: Kind, V: Clone> Clone for ErrorWithValue<K, V> where
    <<K as Kind>::Check as Check>::Error: Clone,
 {
    /// Nothing is known of the clones of the inner error and value; callers
    /// that need exactness should keep the original.
    fn clone(&self) -> (r: Self) {
        ErrorWithValue(self.0.clone(), self.1.clone())
    }
}

/// An error without an associated value.
///
/// This error is returned when the caller keeps the ownership of the
/// validated value.  You can use `with_value` to associate a value creating
/// an `ErrorWithValue`.
pub struct Error<K>(pub <<K as Kind>::Check as Check>::Error) where K: Kind;

impl<K: Kind> Error<K> {
    /// Associate a value with this error and turn it into an
    /// `ErrorWithValue`.
    pub fn with_value<V>(self, value: V) -> (r: ErrorWithValue<K, V>)
        ensures
            r.0 == self.0,
            r.1 == value,
    {
        ErrorWithValue(self.0, value)
    }
}

impl<K: Kind> Error<K> where <<K as Kind>::Check as Check>::Error: ErrorMessage {
    /// The generic message together with the predicate-level cause, as the
    /// textual-serialization boundary reports a rejected value.
    pub fn message_with_cause(&self) -> (r: String)
        ensures
            r@ == "invalid "@ + K::spec_description() + " because "@ + self.0.spec_message(),
    {
        let mut s = "invalid ".to_owned();
        s.append(K::description());
        s.append(" because ");
        let cause = self.0.message();
        s.append(cause.as_str());
        s
    }
}

impl<K: Kind> ErrorMessage for Error<K> {
    /// The default rendering deliberately hides the predicate detail: it
    /// only names the kind that rejected the value.
    open spec fn spec_message(&self) -> Seq<char> {
        "invalid "@ + K::spec_description()
    }

    fn message(&self) -> (r: String) {
        let mut s = "invalid ".to_owned();
        s.append(K::description());
        s
    }
}

impl<K: Kind> Clone for Error<K> where <<K as Kind>::Check as Check>::Error: Clone {
    /// Nothing is known of the clone of the inner error; callers that need
    /// exactness should keep the original.
    fn clone(&self) -> (r: Self) {
        Error(self.0.clone())
    }
}

} // verus!
