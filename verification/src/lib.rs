//! Typed text kinds.
//!
//! This crate provides a `Text<Kind, DynamicStorage>` wrapper for text values
//! providing the following features:
//!
//! * Different kinds of texts have different types.
//! * Value validation associated with text kinds.
//! * Special storage for `&'static str` values avoiding allocation.
//! * Can sometimes avoid allocation for small strings.
//! * Parameterised dynamic storage (`String`, `Rc<String>` or `Arc<String>`).
//! * Checked conversions between kinds.
//! * Transition from one dynamic storage to another.
//!
//! Every `Text` value carries the invariant that its characters satisfy the
//! check of its kind; the invariant is established at construction and kept
//! by every transition and conversion operation.  Each operation states in
//! its contract how the stored characters relate to its inputs.
use vstd::prelude::*;
use vstd::string::StrSliceExecFns;
use crate::check::byte_length;
use crate::small::SMALL_STRING_BUF;

pub mod check;
pub mod kind;

mod conversion;
pub use crate::conversion::ConvertError;
pub use crate::conversion::ConvertFrom;
pub use crate::conversion::ConvertResult;
pub use crate::conversion::TryConvertFrom;

mod data;
pub use crate::data::Data;

mod errors;
pub use crate::errors::Error;
pub use crate::errors::ErrorWithValue;

mod message;
pub use crate::message::ErrorMessage;

mod small;
pub use crate::small::SmallString;

mod traits;
pub use crate::traits::convert_dynamic;
pub use crate::traits::Check;
pub use crate::traits::Dynamic;
pub use crate::traits::Kind;

verus! {

/// Predefined title text type.
///
/// This uses `kind::Title` as a text kind while keeping the dynamic storage
/// as a type parameter.
pub type Title<D> = Text<kind::Title, D>;

/// Predefined identifier text type.
///
/// This uses `kind::Identifier` as a text kind while keeping the dynamic
/// storage as a type parameter.
pub type Identifier<D> = Text<kind::Identifier, D>;

/// Predefined lax identifier text type.
///
/// This uses `kind::IdentifierLax` as a text kind while keeping the dynamic
/// storage as a type parameter.
pub type IdentifierLax<D> = Text<kind::IdentifierLax, D>;

/// Whether `s` passes the check of kind `K`.
pub open spec fn kind_valid<K: Kind>(s: Seq<char>) -> bool {
    <<K as Kind>::Check as Check>::spec_valid(s)
}

/// The error with which the check of kind `K` rejects `s`.
pub open spec fn kind_error<K: Kind>(s: Seq<char>) -> <<K as Kind>::Check as Check>::Error {
    <<K as Kind>::Check as Check>::spec_error(s)
}

/// Encapsulates a modification result.
///
/// This is used to indicate if a modified value is a new value or a subslice
/// of an existing one.  The subslice variant allows static text values to
/// avoid an allocation unless required.
///
/// The type parameter `T` will usually be a dynamic storage type as used for
/// `Text`.
#[derive(Debug, Clone, PartialEq, Eq)]
pub enum Modified<'a, T> {
    /// Modification result is a completely new value.
    New(T),
    /// Modification result is a subslice of the existing value.
    Sub(&'a str),
}

impl<'a, D: Dynamic> From<D> for Modified<'a, D> {
    fn from(value: D) -> (r: Modified<'a, D>) {
        Modified::New(value)
    }
}

impl<'a, D: Dynamic> vstd::std_specs::convert::FromSpecImpl<D> for Modified<'a, D> {
    open spec fn obeys_from_spec() -> bool {
        true
    }

    open spec fn from_spec(v: D) -> Self {
        Modified::New(v)
    }
}

impl<'a, D: Dynamic> From<&'a str> for Modified<'a, D> {
    fn from(value: &'a str) -> (r: Modified<'a, D>) {
        Modified::Sub(value)
    }
}

impl<'a, D: Dynamic> vstd::std_specs::convert::FromSpecImpl<&'a str> for Modified<'a, D> {
    open spec fn obeys_from_spec() -> bool {
        true
    }

    open spec fn from_spec(v: &'a str) -> Self {
        Modified::Sub(v)
    }
}

/// Owned text value with parameterisable identity and dynamic storage.
///
/// This is the main type of this crate.  It requires two type parameters:
///
/// * `K` is a type implementing `Kind`.  This represents the kind identity
///   of the text.  Every text kind has an associated `Check` type to
///   determine if a given value is valid.
/// * `D` is a type providing `Dynamic` storage for the text.  This is
///   something like `String`, `Arc<String>` or `Rc<String>`.
///
/// Special constructors for `&'static str` values are available that allow
/// avoiding dynamic storage where possible.
///
/// Every value of this type satisfies the check of its kind; the invariant
/// is established by the validating constructors and preserved by all
/// transitions, so no operation below asks the caller for it.
///
/// Hashing is derived and therefore follows the stored representation; two
/// equal texts hash alike when they were built the same way, which holds
/// for values produced by `clone`.
#[derive(Debug, Hash)]
pub struct Text<K: Kind, D: Dynamic> {
    kind: core::marker::PhantomData<K>,
    data: Data<D>,
}

impl<K: Kind, D: Dynamic> View for Text<K, D> {
    type V = Seq<char>;

    closed spec fn view(&self) -> Seq<char> {
        self.data@
    }
}

impl<K: Kind, D: Dynamic> Text<K, D> {
    /// The type's invariant: the stored characters pass this kind's check.
    #[verifier::type_invariant]
    spec fn wf(&self) -> bool {
        kind_valid::<K>(self@)
    }

    /// The wrapped data value, for contracts that speak of the storage
    /// representation.
    pub closed spec fn spec_data(&self) -> Data<D> {
        self.data
    }

    /// Whether the text is held as a borrowed static reference rather than
    /// in inline or dynamic storage.
    pub open spec fn stored_static(&self) -> bool {
        self.spec_data() is Static
    }

    /// Whether the text is held in the inline small-string buffer.
    pub open spec fn stored_small(&self) -> bool {
        self.spec_data() is Small
    }

    /// Attempt to construct this text value from a `&'static str`.
    ///
    /// This will directly store the static reference and avoid a possible
    /// allocation by the dynamic storage type.
    ///
    /// # Errors
    ///
    /// Returns an `Error<K>` without the associated value when the value is
    /// invalid (the caller already owns the reference).
    pub fn try_from_static_str(value: &'static str) -> (r: Result<Self, Error<K>>)
        ensures
            r is Ok <==> kind_valid::<K>(value@),
            r matches Ok(t) ==> t@ == value@ && t.stored_static(),
            r matches Err(e) ==> e.0 == kind_error::<K>(value@),
    {
        match <K::Check as Check>::check(value) {
            Err(error) => Err(Error(error)),
            Ok(()) => Ok(
                Text { kind: core::marker::PhantomData, data: Data::from_static_str(value) },
            ),
        }
    }

    /// Attempt to construct this text value from a `&str`.
    ///
    /// This will initialise new storage with the given value: the inline
    /// buffer for a small value, the dynamic storage otherwise.
    ///
    /// # Errors
    ///
    /// Returns an `Error<K>` without the associated value when the value is
    /// invalid (the caller keeps the slice untouched).
    pub fn try_from_str(value: &str) -> (r: Result<Self, Error<K>>)
        ensures
            r is Ok <==> kind_valid::<K>(value@),
            r matches Ok(t) ==> t@ == value@ && !t.stored_static() && (t.stored_small()
                <==> byte_length(value@) <= SMALL_STRING_BUF),
            r matches Err(e) ==> e.0 == kind_error::<K>(value@),
    {
        match <K::Check as Check>::check(value) {
            Err(error) => Err(Error(error)),
            Ok(()) => Ok(Text { kind: core::marker::PhantomData, data: Data::from_str(value) }),
        }
    }

    /// Attempt to construct this text value from a
    /// `std::borrow::Cow<'_, str>`.
    ///
    /// This method mainly exists because you sometimes already have a
    /// `std::borrow::Cow` wrapped value and want to defer the decision of
    /// reuse to the storage.
    ///
    /// # Errors
    ///
    /// Returns an `ErrorWithValue<K, _>` carrying the given value back when
    /// it is invalid, so the caller never loses ownership.
    pub fn try_from_str_cow(value: std::borrow::Cow<'_, str>) -> (r: Result<
        Self,
        ErrorWithValue<K, std::borrow::Cow<'_, str>>,
    >)
        ensures
            r is Ok <==> kind_valid::<K>(value@),
            r matches Ok(t) ==> t@ == value@ && !t.stored_static() && (t.stored_small() <==> (
            value matches std::borrow::Cow::Borrowed(_) && byte_length(value@)
                <= SMALL_STRING_BUF)),
            r matches Err(e) ==> e.0 == kind_error::<K>(value@) && e.1 == value,
    {
        match <K::Check as Check>::check(cow_as_str(&value)) {
            Err(error) => Err(ErrorWithValue(error, value)),
            Ok(()) => Ok(Text { kind: core::marker::PhantomData, data: Data::from_cow(value) }),
        }
    }

    /// Attempt to construct this text value from a
    /// `std::borrow::Cow<'static, str>`.
    ///
    /// This is exactly like `try_from_string` except it will not use the
    /// dynamic storage when the value is a `&'static str`.  It means the
    /// caller doesn't have to choose between `try_from_string` and
    /// `try_from_static_str`.
    ///
    /// # Errors
    ///
    /// Returns an `ErrorWithValue<K, _>` carrying the given value back when
    /// it is invalid.
    pub fn try_from_static_str_cow(value: std::borrow::Cow<'static, str>) -> (r: Result<
        Self,
        ErrorWithValue<K, std::borrow::Cow<'static, str>>,
    >)
        ensures
            r is Ok <==> kind_valid::<K>(value@),
            r matches Ok(t) ==> t@ == value@ && (t.stored_static() <==> value matches std::borrow::Cow::Borrowed(_)) && (value matches std::borrow::Cow::Owned(_) ==> !t.stored_small()),
            r matches Err(e) ==> e.0 == kind_error::<K>(value@) && e.1 == value,
    {
        match <K::Check as Check>::check(cow_as_str(&value)) {
            Err(error) => Err(ErrorWithValue(error, value)),
            Ok(()) => Ok(
                Text { kind: core::marker::PhantomData, data: Data::from_static_str_cow(value) },
            ),
        }
    }

    /// Attempt to construct this text value from a `String`.
    ///
    /// This constructor allows the dynamic storage to potentially take over
    /// ownership of the string and keep it instead of making a new
    /// allocation.
    ///
    /// # Errors
    ///
    /// Returns an `ErrorWithValue<K, String>` carrying the string back when
    /// it is invalid.
    pub fn try_from_string(value: String) -> (r: Result<Self, ErrorWithValue<K, String>>)
        ensures
            r is Ok <==> kind_valid::<K>(value@),
            r matches Ok(t) ==> t@ == value@ && t.spec_data() is Dynamic,
            r matches Err(e) ==> e.0 == kind_error::<K>(value@) && e.1 == value,
    {
        match <K::Check as Check>::check(value.as_str()) {
            Err(error) => Err(ErrorWithValue(error, value)),
            Ok(()) => Ok(Text { kind: core::marker::PhantomData, data: Data::from_string(value) }),
        }
    }

    /// Attempt to construct this text value from an existing dynamic storage
    /// value.
    ///
    /// # Errors
    ///
    /// Returns an `ErrorWithValue<K, D>` carrying the storage back when its
    /// content is invalid.
    pub fn try_from_dynamic(value: D) -> (r: Result<Self, ErrorWithValue<K, D>>)
        ensures
            r is Ok <==> kind_valid::<K>(value@),
            r matches Ok(t) ==> t@ == value@ && t.spec_data() is Dynamic,
            r matches Err(e) ==> e.0 == kind_error::<K>(value@) && e.1 == value,
    {
        match <K::Check as Check>::check(value.as_str()) {
            Err(error) => Err(ErrorWithValue(error, value)),
            Ok(()) => Ok(
                Text {
                    kind: core::marker::PhantomData,
                    data: Data::from_dynamic(convert_dynamic(value)),
                },
            ),
        }
    }

    /// Attempt to construct this text value from an existing data value.
    ///
    /// # Errors
    ///
    /// Returns an `ErrorWithValue<K, Data<D>>` carrying the data back when
    /// its content is invalid.
    pub fn try_from_data(data: Data<D>) -> (r: Result<Self, ErrorWithValue<K, Data<D>>>)
        ensures
            r is Ok <==> kind_valid::<K>(data@),
            r matches Ok(t) ==> t@ == data@ && t.spec_data() == data,
            r matches Err(e) ==> e.0 == kind_error::<K>(data@) && e.1 == data,
    {
        match <K::Check as Check>::check(data.as_str()) {
            Err(error) => Err(ErrorWithValue(error, data)),
            Ok(()) => Ok(Text { kind: core::marker::PhantomData, data }),
        }
    }

    /// Convert from another kind via the `ConvertFrom` trait.
    ///
    /// # Panics
    ///
    /// Since this usually constructs a new text kind from an existing one, a
    /// call to this may run assertions that may panic; such a panic signals
    /// a defect in the `ConvertFrom` implementation, not an expected runtime
    /// outcome.
    pub fn convert_from<K2>(other: Text<K2, D>) -> Self where K2: Kind, K: ConvertFrom<K2> {
        K::convert_from(other)
    }

    /// Convert to another kind via the `ConvertFrom` trait.
    ///
    /// # Panics
    ///
    /// Since this usually constructs a new text kind from an existing one, a
    /// call to this may run assertions that may panic; such a panic signals
    /// a defect in the `ConvertFrom` implementation, not an expected runtime
    /// outcome.
    pub fn convert_into<K2>(self) -> Text<K2, D> where K2: Kind, K2: ConvertFrom<K> {
        K2::convert_from(self)
    }

    /// Try to convert from another text kind via the `TryConvertFrom`
    /// trait.
    pub fn try_convert_from<K2>(other: Text<K2, D>) -> ConvertResult<K2, K, D, K::Error> where
        K2: Kind,
        K: TryConvertFrom<K2>,
     {
        K::try_convert_from(other)
    }

    /// Try to convert to another text kind via the `TryConvertFrom` trait.
    pub fn try_convert_into<K2>(self) -> ConvertResult<K, K2, D, K2::Error> where
        K2: Kind,
        K2: TryConvertFrom<K>,
     {
        K2::try_convert_from(self)
    }

    /// Get a `&str` view from the text value.
    ///
    /// This never allocates, and the view always passes this kind's check.
    pub fn as_str(&self) -> (r: &str)
        ensures
            r@ == self@,
            kind_valid::<K>(self@),
    {
        proof {
            use_type_invariant(self);
        }
        self.data.as_str()
    }

    /// Turn the text into a `String`.
    ///
    /// Depending on the dynamic storage this might be extracted without
    /// causing an allocation.
    pub fn into_string(self) -> (r: String)
        ensures
            r@ == self@,
            kind_valid::<K>(self@),
    {
        proof {
            use_type_invariant(&self);
        }
        self.data.into_string()
    }

    /// Turn the text into a `std::borrow::Cow<'static, str>`.
    ///
    /// This will return a borrowed value exactly when the stored value is
    /// static and not in inline or dynamic storage.
    pub fn into_static_str_cow(self) -> (r: std::borrow::Cow<'static, str>)
        ensures
            r@ == self@,
            r matches std::borrow::Cow::Borrowed(_) <==> self.stored_static(),
            kind_valid::<K>(self@),
    {
        proof {
            use_type_invariant(&self);
        }
        self.data.into_static_str_cow()
    }

    /// Extract the dynamic storage value, creating one if the value is
    /// static or inline.
    pub fn into_dynamic(self) -> (r: D)
        ensures
            r@ == self@,
            self.spec_data() matches Data::Dynamic(dynamic) ==> r == dynamic,
            kind_valid::<K>(self@),
    {
        proof {
            use_type_invariant(&self);
        }
        self.data.into_dynamic()
    }

    /// Extract the data value: exactly the wrapped one, variant and
    /// contents unchanged.
    pub fn into_data(self) -> (r: Data<D>)
        ensures
            r == self.spec_data(),
            r@ == self@,
            kind_valid::<K>(self@),
    {
        proof {
            use_type_invariant(&self);
        }
        self.data
    }

    /// Attempt to transition to another kind.
    ///
    /// If both kinds share the same `Check` type you can use the infallible
    /// `kind_transition` method.
    ///
    /// # Errors
    ///
    /// Returns an `ErrorWithValue` carrying the original text back when its
    /// content does not pass the destination kind's check; the returned text
    /// is still valid for its original kind.
    pub fn try_kind_transition<K2: Kind>(self) -> (r: Result<
        Text<K2, D>,
        ErrorWithValue<K2, Text<K, D>>,
    >)
        ensures
            r is Ok <==> kind_valid::<K2>(self@),
            r matches Ok(t) ==> t@ == self@ && t.spec_data() == self.spec_data(),
            r matches Err(e) ==> e.0 == kind_error::<K2>(self@) && e.1 == self,
    {
        proof {
            use_type_invariant(&self);
        }
        match <K2::Check as Check>::check(self.as_str()) {
            Err(error) => Err(ErrorWithValue(error, self)),
            Ok(()) => Ok(Text { kind: core::marker::PhantomData, data: self.data }),
        }
    }

    /// Transition to another kind with the same `Check` type.
    ///
    /// Because the destination kind runs the very same check, this cannot
    /// fail, performs no re-validation, and keeps the characters unchanged.
    ///
    /// See `try_kind_transition` for transitions where the `Check` type
    /// isn't shared.
    pub fn kind_transition<K2, C>(self) -> (r: Text<K2, D>) where
        K: Kind<Check = C>,
        K2: Kind<Check = C>,
        C: Check,

        ensures
            r@ == self@,
            r.spec_data() == self.spec_data(),
    {
        proof {
            use_type_invariant(&self);
        }
        Text { kind: core::marker::PhantomData, data: self.data }
    }

    /// Transition to another dynamic storage.
    ///
    /// The text kind and the characters stay the same; only the dynamic
    /// variant of the representation is remapped, so static and inline
    /// values move without any new allocation.
    pub fn storage_transition<D2>(self) -> (r: Text<K, D2>) where D2: Dynamic
        ensures
            r@ == self@,
            self.spec_data() matches Data::Static(value) ==> r.spec_data() == Data::<
                D2,
            >::Static(value),
            self.spec_data() matches Data::Small(small) ==> r.spec_data() == Data::<D2>::Small(
                small,
            ),
            self.spec_data() is Dynamic ==> r.spec_data() is Dynamic,
    {
        proof {
            use_type_invariant(&self);
        }
        Text { kind: core::marker::PhantomData, data: self.data.convert() }
    }
}

/// Borrow the string slice held by a `std::borrow::Cow`.
fn cow_as_str<'a>(value: &'a std::borrow::Cow<'_, str>) -> (r: &'a str)
    ensures
        r@ == value@,
{
    match value {
        std::borrow::Cow::Borrowed(borrowed) => borrowed,
        std::borrow::Cow::Owned(owned) => owned.as_str(),
    }
}

/// A text reconstructed from its own extracted string has the same content:
/// whenever `into_string` hands out `s` and `try_from_string` is then run on
/// `s`, the construction succeeds and yields the original characters.
pub proof fn lemma_string_round_trip<K: Kind, D: Dynamic>(
    t: Text<K, D>,
    s: String,
    r: Result<Text<K, D>, ErrorWithValue<K, String>>,
)
    requires
        call_ensures(Text::<K, D>::into_string, (t,), s),
        call_ensures(Text::<K, D>::try_from_string, (s,), r),
    ensures
        r matches Ok(t2) && t2@ == t@,
{
}

impl<K: Kind, D: Dynamic> Clone for Text<K, D> {
    /// The clone holds the same characters in the same kind of storage.
    fn clone(&self) -> (r: Self)
        ensures
            r@ == self@,
            r.stored_static() == self.stored_static(),
            r.stored_small() == self.stored_small(),
    {
        proof {
            use_type_invariant(self);
        }
        Text { kind: core::marker::PhantomData, data: self.data.clone() }
    }
}

impl<K: Kind, D: Dynamic> core::str::FromStr for Text<K, D> {
    type Err = Error<K>;

    fn from_str(value: &str) -> (r: Result<Self, Error<K>>) {
        Text::try_from_str(value)
    }
}

/// Whether the two string slices hold the same characters.
fn str_equal(a: &str, b: &str) -> (r: bool)
    ensures
        r == (a@ == b@),
{
    let n = a.unicode_len();
    let m = b.unicode_len();
    if n != m {
        return false;
    }
    let mut i: usize = 0;
    while i < n
        invariant
            i <= n,
            n == a@.len(),
            n == b@.len(),
            forall|k: int| 0 <= k < i ==> a@[k] == #[trigger] b@[k],
        decreases n - i,
    {
        if a.get_char(i) != b.get_char(i) {
            return false;
        }
        i = i + 1;
    }
    proof {
        assert(a@ =~= b@);
    }
    true
}

impl<K: Kind, D: Dynamic> PartialEq for Text<K, D> {
    /// Texts are compared by their characters, whatever their storage.
    fn eq(&self, other: &Self) -> (r: bool) {
        str_equal(self.as_str(), other.as_str())
    }
}

impl<K: Kind, D: Dynamic> vstd::std_specs::cmp::PartialEqSpecImpl for Text<K, D> {
    open spec fn obeys_eq_spec() -> bool {
        true
    }

    open spec fn eq_spec(&self, other: &Self) -> bool {
        self@ == other@
    }
}

impl<K: Kind, D: Dynamic> Eq for Text<K, D> {

}

/// Lexicographic comparison of character sequences by code point, the order
/// `str` comparison uses.
pub open spec fn chars_compare(a: Seq<char>, b: Seq<char>) -> core::cmp::Ordering
    decreases a.len(),
{
    if a.len() == 0 && b.len() == 0 {
        core::cmp::Ordering::Equal
    } else if a.len() == 0 {
        core::cmp::Ordering::Less
    } else if b.len() == 0 {
        core::cmp::Ordering::Greater
    } else if (a[0] as u32) < (b[0] as u32) {
        core::cmp::Ordering::Less
    } else if (a[0] as u32) > (b[0] as u32) {
        core::cmp::Ordering::Greater
    } else {
        chars_compare(a.drop_first(), b.drop_first())
    }
}

/// Sequences that agree on a common prefix compare as their remainders do.
proof fn lemma_chars_compare_skip(a: Seq<char>, b: Seq<char>, i: int)
    requires
        0 <= i <= a.len(),
        i <= b.len(),
        forall|k: int| 0 <= k < i ==> a[k] == #[trigger] b[k],
    ensures
        chars_compare(a, b) == chars_compare(a.skip(i), b.skip(i)),
    decreases i,
{
    if i > 0 {
        assert(a[0] == b[0]);
        assert((a[0] as u32) == (b[0] as u32));
        assert(chars_compare(a, b) == chars_compare(a.drop_first(), b.drop_first()));
        assert forall|k: int| 0 <= k < i - 1 implies a.drop_first()[k] == #[trigger] b.drop_first()[k] by {
            assert(a.drop_first()[k] == a[k + 1]);
            assert(b.drop_first()[k] == b[k + 1]);
        }
        lemma_chars_compare_skip(a.drop_first(), b.drop_first(), i - 1);
        assert(a.drop_first().skip(i - 1) =~= a.skip(i));
        assert(b.drop_first().skip(i - 1) =~= b.skip(i));
    } else {
        assert(a.skip(0) =~= a);
        assert(b.skip(0) =~= b);
    }
}

/// Compare two string slices lexicographically by code point.
fn str_compare(a: &str, b: &str) -> (r: core::cmp::Ordering)
    ensures
        r == chars_compare(a@, b@),
{
    let n = a.unicode_len();
    let m = b.unicode_len();
    let mut i: usize = 0;
    while i < n && i < m
        invariant
            i <= n,
            i <= m,
            n == a@.len(),
            m == b@.len(),
            forall|k: int| 0 <= k < i ==> a@[k] == #[trigger] b@[k],
        decreases n - i,
    {
        let ca: u32 = a.get_char(i) as u32;
        let cb: u32 = b.get_char(i) as u32;
        if ca < cb {
            proof {
                lemma_chars_compare_skip(a@, b@, i as int);
                assert(a@.skip(i as int)[0] == a@[i as int]);
                assert(b@.skip(i as int)[0] == b@[i as int]);
            }
            return core::cmp::Ordering::Less;
        }
        if ca > cb {
            proof {
                lemma_chars_compare_skip(a@, b@, i as int);
                assert(a@.skip(i as int)[0] == a@[i as int]);
                assert(b@.skip(i as int)[0] == b@[i as int]);
            }
            return core::cmp::Ordering::Greater;
        }
        proof {
            vstd::utf8::char_u32_cast(a@[i as int], ca);
            vstd::utf8::char_u32_cast(b@[i as int], cb);
        }
        i = i + 1;
    }
    proof {
        lemma_chars_compare_skip(a@, b@, i as int);
        assert(a@.skip(i as int).len() == n - i);
        assert(b@.skip(i as int).len() == m - i);
    }
    if n == m {
        core::cmp::Ordering::Equal
    } else if n < m {
        core::cmp::Ordering::Less
    } else {
        core::cmp::Ordering::Greater
    }
}

impl<K: Kind, D: Dynamic> PartialOrd for Text<K, D> {
    /// Texts are ordered by their characters, lexicographically by code
    /// point, whatever their storage.
    fn partial_cmp(&self, other: &Self) -> (r: Option<core::cmp::Ordering>) {
        Some(str_compare(self.as_str(), other.as_str()))
    }
}

impl<K: Kind, D: Dynamic> vstd::std_specs::cmp::PartialOrdSpecImpl for Text<K, D> {
    open spec fn obeys_partial_cmp_spec() -> bool {
        true
    }

    open spec fn partial_cmp_spec(&self, other: &Self) -> Option<core::cmp::Ordering> {
        Some(chars_compare(self@, other@))
    }
}

} // verus!
