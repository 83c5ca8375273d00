//! Caller-supplied conversions between text kinds, and the conversion error
//! that interoperates with `ErrorWithValue`.
use vstd::prelude::*;
use crate::Dynamic;
use crate::Error;
use crate::ErrorWithValue;
use crate::Kind;
use crate::Text;

verus! {

/// Trait for converting between different text kinds.
///
/// A conversion is supplied by the caller for a specific pair of kinds; it
/// is intended for cases where the destination kind's check provably accepts
/// everything the source kind's check accepts, so implementations are
/// expected to use `try_kind_transition` internally and treat unexpected
/// failure as a programming error.
pub trait ConvertFrom<K>: Kind + Sized where K: Kind {
    /// Convert from one kind of text into another while keeping the same
    /// dynamic storage type.
    ///
    /// # Panics
    ///
    /// Since this usually constructs a new text kind from an existing one, a
    /// call to this may run assertions that may panic.  Such a panic signals
    /// a defect in the implementation, never an expected runtime outcome.
    fn convert_from<D: Dynamic>(text: Text<K, D>) -> Text<Self, D>;
}

/// Signals a conversion error.
///
/// Convenience `From` conversions from
/// `ErrorWithValue<TargetKind, Text<SourceKind, D>>` to
/// `ConvertError<SourceKind, D, Error<TargetKind>>` and vice-versa are
/// provided.
///
/// The type parameters are as follows:
///
/// * `K` is the source text kind.
/// * `D` is the dynamic storage.
/// * `E` is the error.
pub struct ConvertError<K, D, E>(pub E, pub Text<K, D>) where K: Kind, D: Dynamic;

impl<K1: Kind, K2: Kind, D: Dynamic> From<ErrorWithValue<K2, Text<K1, D>>> for ConvertError<K1, D, Error<K2>> {
    fn from(error_with_value: ErrorWithValue<K2, Text<K1, D>>) -> (r: Self) {
        let (error, value) = error_with_value.split();
        ConvertError(error, value)
    }
}

impl<K1: Kind, K2: Kind, D: Dynamic> vstd::std_specs::convert::FromSpecImpl<ErrorWithValue<K2, Text<K1, D>>> for ConvertError<K1, D, Error<K2>> {
    open spec fn obeys_from_spec() -> bool {
        true
    }

    open spec fn from_spec(v: ErrorWithValue<K2, Text<K1, D>>) -> Self {
        ConvertError(Error(v.0), v.1)
    }
}

impl<K1: Kind, K2: Kind, D: Dynamic> From<ConvertError<K1, D, Error<K2>>> for ErrorWithValue<K2, Text<K1, D>> {
    fn from(convert_error: ConvertError<K1, D, Error<K2>>) -> (r: Self) {
        convert_error.0.with_value(convert_error.1)
    }
}

impl<K1: Kind, K2: Kind, D: Dynamic> vstd::std_specs::convert::FromSpecImpl<ConvertError<K1, D, Error<K2>>> for ErrorWithValue<K2, Text<K1, D>> {
    open spec fn obeys_from_spec() -> bool {
        true
    }

    open spec fn from_spec(v: ConvertError<K1, D, Error<K2>>) -> Self {
        ErrorWithValue(v.0.0, v.1)
    }
}

/// Convenience alias for conversion results.
///
/// The type parameters are as follows:
///
/// * `K1` is the source text kind.
/// * `K2` is the target text kind.
/// * `D` is the dynamic storage.
/// * `E` is the error.
pub type ConvertResult<K1, K2, D, E> = Result<Text<K2, D>, ConvertError<K1, D, E>>;

/// Trait for fallibly converting between different text kinds.
pub trait TryConvertFrom<K>: Kind + Sized where K: Kind {
    /// The error type communicating what error occurred.
    type Error;

    /// Attempt conversion from another kind.
    ///
    /// On failure the conversion error carries the original text back, so
    /// the caller recovers a value that is still valid for its original
    /// kind.
    fn try_convert_from<D: Dynamic>(text: Text<K, D>) -> ConvertResult<K, Self, D, Self::Error>;
}

} // verus!
