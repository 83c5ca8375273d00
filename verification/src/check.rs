//! Predefined check types.
//!
//! This is a collection of common value checks.  Each check type implements
//! the `Check` trait: its predicate is the spec function `spec_valid`, the
//! error a rejected string is reported with is fixed by `spec_error`, and the
//! executable `check` is verified against both.
//!
//! See the `kind` module for a collection of predefined text kinds.
use vstd::prelude::*;
use vstd::string::StrSliceExecFns;
use vstd::string::StringExecFns;
use crate::message::decimal_seq;
use crate::message::escaped_char;
use crate::message::escape_default_string;
use crate::message::push_decimal;
use crate::message::ErrorMessage;
use crate::Check;

verus! {

/// Non-empty text without control characters or leading/trailing whitespace.
pub type Title = And<NotEmpty, And<NoControl, Trimmed>>;

/// Whether `c` has the Unicode `White_Space` property; this is the class of
/// characters that `char::is_whitespace` accepts.
pub open spec fn whitespace_char(c: char) -> bool {
    let n: u32 = c as u32;
    (0x09 <= n && n <= 0x0d) || n == 0x20 || n == 0x85 || n == 0xa0 || n == 0x1680 || (0x2000 <= n
        && n <= 0x200a) || n == 0x2028 || n == 0x2029 || n == 0x202f || n == 0x205f || n == 0x3000
}

/// Whether `c` is in the Unicode `Cc` (control) category; this is the class
/// of characters that `char::is_control` accepts.
pub open spec fn control_char(c: char) -> bool {
    let n: u32 = c as u32;
    n <= 0x1f || (0x7f <= n && n <= 0x9f)
}

/// Whether every character of `s` is whitespace.
pub open spec fn all_whitespace(s: Seq<char>) -> bool {
    forall|k: int| 0 <= k < s.len() ==> whitespace_char(#[trigger] s[k])
}

/// The whitespace predicate as a function value, shared by the spec
/// functions below so that they all speak of one and the same closure.
pub open spec fn whitespace_pred() -> spec_fn(char) -> bool {
    |c: char| whitespace_char(c)
}

/// The index of the first character of `s` for which `p` does not hold, or
/// `s.len()` if `p` holds everywhere.
pub open spec fn first_violation(s: Seq<char>, p: spec_fn(char) -> bool) -> int
    decreases s.len(),
{
    if s.len() == 0 || !p(s[0]) {
        0
    } else {
        1 + first_violation(s.drop_first(), p)
    }
}

/// `first_violation` is the least index at which `p` fails.
pub proof fn lemma_first_violation(s: Seq<char>, p: spec_fn(char) -> bool)
    ensures
        0 <= first_violation(s, p) <= s.len(),
        forall|k: int| 0 <= k < first_violation(s, p) ==> p(#[trigger] s[k]),
        first_violation(s, p) < s.len() ==> !p(s[first_violation(s, p)]),
    decreases s.len(),
{
    if s.len() == 0 || !p(s[0]) {
    } else {
        lemma_first_violation(s.drop_first(), p);
        let t = first_violation(s, p);
        assert forall|k: int| 0 <= k < t implies p(#[trigger] s[k]) by {
            if k >= 1 {
                assert(s[k] == s.drop_first()[k - 1]);
            }
        }
        if t < s.len() {
            assert(s[t] == s.drop_first()[t - 1]);
        }
    }
}

/// Whether `c` is whitespace.
fn is_whitespace_character(c: char) -> (r: bool)
    ensures
        r == whitespace_char(c),
{
    let n: u32 = c as u32;
    (0x09 <= n && n <= 0x0d) || n == 0x20 || n == 0x85 || n == 0xa0 || n == 0x1680 || (0x2000 <= n
        && n <= 0x200a) || n == 0x2028 || n == 0x2029 || n == 0x202f || n == 0x205f || n == 0x3000
}

/// Whether `c` is a control character.
fn is_control_character(c: char) -> (r: bool)
    ensures
        r == control_char(c),
{
    let n: u32 = c as u32;
    n <= 0x1f || (0x7f <= n && n <= 0x9f)
}

/// Signals that a value is invalid because it is empty.
#[derive(Debug, Clone, Copy, PartialEq, Eq)]
pub struct NotEmptyError;

impl ErrorMessage for NotEmptyError {
    open spec fn spec_message(&self) -> Seq<char> {
        "value is empty"@
    }

    fn message(&self) -> (r: String) {
        "value is empty".to_owned()
    }
}

/// Ensure a value is not empty.
pub struct NotEmpty {
    _unconstructable: (),
}

impl Check for NotEmpty {
    type Error = NotEmptyError;

    open spec fn spec_valid(s: Seq<char>) -> bool {
        s.len() > 0
    }

    open spec fn spec_error(s: Seq<char>) -> NotEmptyError {
        NotEmptyError
    }

    fn check(value: &str) -> (r: Result<(), NotEmptyError>) {
        if value.is_empty() {
            Err(NotEmptyError)
        } else {
            Ok(())
        }
    }
}

/// Signals that a value is invalid because it contained a newline.
#[derive(Debug, Clone, Copy, PartialEq, Eq)]
pub struct SingleLineError;

impl ErrorMessage for SingleLineError {
    open spec fn spec_message(&self) -> Seq<char> {
        "value is not single-line"@
    }

    fn message(&self) -> (r: String) {
        "value is not single-line".to_owned()
    }
}

/// Ensure a value does not contain newlines and is therefore on a single
/// line.
///
/// A trailing newline will also cause the check to fail.
pub struct SingleLine {
    _unconstructable: (),
}

impl Check for SingleLine {
    type Error = SingleLineError;

    open spec fn spec_valid(s: Seq<char>) -> bool {
        forall|k: int| 0 <= k < s.len() ==> #[trigger] s[k] != '\n'
    }

    open spec fn spec_error(s: Seq<char>) -> SingleLineError {
        SingleLineError
    }

    fn check(value: &str) -> (r: Result<(), SingleLineError>) {
        let n = value.unicode_len();
        let mut i: usize = 0;
        while i < n
            invariant
                i <= n,
                n == value@.len(),
                forall|k: int| 0 <= k < i ==> #[trigger] value@[k] != '\n',
            decreases n - i,
        {
            if value.get_char(i) == '\n' {
                return Err(SingleLineError);
            }
            i = i + 1;
        }
        Ok(())
    }
}

/// Signals that a value is invalid because it contained whitespaces.
#[derive(Debug, Clone, Copy, PartialEq, Eq)]
pub struct NoWhitespaceError {
    /// The number of whitespace runs that were found.
    pub whitespace_count: usize,
}

impl ErrorMessage for NoWhitespaceError {
    open spec fn spec_message(&self) -> Seq<char> {
        "value contains whitespace (value contains "@ + decimal_seq(self.whitespace_count as nat)
            + " whitespace sequence(s))"@
    }

    fn message(&self) -> (r: String) {
        let mut s = "value contains whitespace (value contains ".to_owned();
        push_decimal(&mut s, self.whitespace_count);
        s.append(" whitespace sequence(s))");
        proof {
            assert(s@ =~= self.spec_message());
        }
        s
    }
}

/// The number of maximal runs of whitespace characters in `s`.
pub open spec fn whitespace_run_count(s: Seq<char>) -> nat
    decreases s.len(),
{
    if s.len() == 0 {
        0
    } else {
        whitespace_run_count(s.drop_last()) + (if whitespace_char(s[s.len() - 1]) && (s.len() == 1
            || !whitespace_char(s[s.len() - 2])) {
            1nat
        } else {
            0nat
        })
    }
}

/// Ensure a value does not contain whitespaces.
pub struct NoWhitespace {
    _unconstructable: (),
}

impl Check for NoWhitespace {
    type Error = NoWhitespaceError;

    open spec fn spec_valid(s: Seq<char>) -> bool {
        forall|k: int| 0 <= k < s.len() ==> !whitespace_char(#[trigger] s[k])
    }

    open spec fn spec_error(s: Seq<char>) -> NoWhitespaceError {
        NoWhitespaceError { whitespace_count: whitespace_run_count(s) as usize }
    }

    fn check(value: &str) -> (r: Result<(), NoWhitespaceError>) {
        let n = value.unicode_len();
        let mut count: usize = 0;
        let mut i: usize = 0;
        let mut previous_ws = false;
        while i < n
            invariant
                i <= n,
                count <= i,
                n == value@.len(),
                count == whitespace_run_count(value@.take(i as int)),
                previous_ws == (i > 0 && whitespace_char(value@[i as int - 1])),
                (count == 0) <==> (forall|k: int|
                    0 <= k < i ==> !whitespace_char(#[trigger] value@[k])),
            decreases n - i,
        {
            let c = value.get_char(i);
            let ws = is_whitespace_character(c);
            proof {
                assert(value@.take(i as int + 1).drop_last() =~= value@.take(i as int));
                assert(value@.take(i as int + 1)[i as int] == value@[i as int]);
            }
            if ws && !previous_ws {
                count = count + 1;
            }
            previous_ws = ws;
            i = i + 1;
        }
        proof {
            assert(value@.take(n as int) =~= value@);
        }
        if count == 0 {
            Ok(())
        } else {
            Err(NoWhitespaceError { whitespace_count: count })
        }
    }
}

/// Signals that a value is invalid because it contained control characters.
#[derive(Debug, Clone, Copy, PartialEq, Eq)]
pub struct NoControlError {
    /// The number of control characters that were found.
    pub control_count: usize,
}

impl ErrorMessage for NoControlError {
    open spec fn spec_message(&self) -> Seq<char> {
        "value contains "@ + decimal_seq(self.control_count as nat) + " control character(s)"@
    }

    fn message(&self) -> (r: String) {
        let mut s = "value contains ".to_owned();
        push_decimal(&mut s, self.control_count);
        s.append(" control character(s)");
        proof {
            assert(s@ =~= self.spec_message());
        }
        s
    }
}

/// The number of control characters in `s`.
pub open spec fn control_char_count(s: Seq<char>) -> nat
    decreases s.len(),
{
    if s.len() == 0 {
        0
    } else {
        control_char_count(s.drop_last()) + (if control_char(s[s.len() - 1]) {
            1nat
        } else {
            0nat
        })
    }
}

/// Ensure a value does not contain control characters.
pub struct NoControl {
    _unconstructable: (),
}

impl Check for NoControl {
    type Error = NoControlError;

    open spec fn spec_valid(s: Seq<char>) -> bool {
        forall|k: int| 0 <= k < s.len() ==> !control_char(#[trigger] s[k])
    }

    open spec fn spec_error(s: Seq<char>) -> NoControlError {
        NoControlError { control_count: control_char_count(s) as usize }
    }

    fn check(value: &str) -> (r: Result<(), NoControlError>) {
        let n = value.unicode_len();
        let mut count: usize = 0;
        let mut i: usize = 0;
        while i < n
            invariant
                i <= n,
                count <= i,
                n == value@.len(),
                count == control_char_count(value@.take(i as int)),
                (count == 0) <==> (forall|k: int|
                    0 <= k < i ==> !control_char(#[trigger] value@[k])),
            decreases n - i,
        {
            let c = value.get_char(i);
            proof {
                assert(value@.take(i as int + 1).drop_last() =~= value@.take(i as int));
                assert(value@.take(i as int + 1)[i as int] == value@[i as int]);
            }
            if is_control_character(c) {
                count = count + 1;
            }
            i = i + 1;
        }
        proof {
            assert(value@.take(n as int) =~= value@);
        }
        if count == 0 {
            Ok(())
        } else {
            Err(NoControlError { control_count: count })
        }
    }
}

/// Signals that a value is invalid because it begins with whitespace.
#[derive(Debug, Clone, Copy, PartialEq, Eq)]
pub struct TrimmedLeftError;

impl ErrorMessage for TrimmedLeftError {
    open spec fn spec_message(&self) -> Seq<char> {
        "value has whitespace at the end"@
    }

    fn message(&self) -> (r: String) {
        "value has whitespace at the end".to_owned()
    }
}

/// Ensure a value doesn't start with whitespace.
pub struct TrimmedLeft {
    _unconstructable: (),
}

/// Whether `s` carries no leading whitespace.
pub open spec fn trimmed_left(s: Seq<char>) -> bool {
    s.len() == 0 || !whitespace_char(s[0])
}

/// Whether `s` carries no trailing whitespace.
pub open spec fn trimmed_right(s: Seq<char>) -> bool {
    s.len() == 0 || !whitespace_char(s[s.len() - 1])
}

impl Check for TrimmedLeft {
    type Error = TrimmedLeftError;

    open spec fn spec_valid(s: Seq<char>) -> bool {
        trimmed_left(s)
    }

    open spec fn spec_error(s: Seq<char>) -> TrimmedLeftError {
        TrimmedLeftError
    }

    fn check(value: &str) -> (r: Result<(), TrimmedLeftError>) {
        if value.is_empty() {
            return Ok(());
        }
        if is_whitespace_character(value.get_char(0)) {
            Err(TrimmedLeftError)
        } else {
            Ok(())
        }
    }
}

/// Signals that a value is invalid because it ends with whitespace.
#[derive(Debug, Clone, Copy, PartialEq, Eq)]
pub struct TrimmedRightError;

impl ErrorMessage for TrimmedRightError {
    open spec fn spec_message(&self) -> Seq<char> {
        "value has whitespace at the beginning"@
    }

    fn message(&self) -> (r: String) {
        "value has whitespace at the beginning".to_owned()
    }
}

/// Ensure a value doesn't end with whitespace.
pub struct TrimmedRight {
    _unconstructable: (),
}

impl Check for TrimmedRight {
    type Error = TrimmedRightError;

    open spec fn spec_valid(s: Seq<char>) -> bool {
        trimmed_right(s)
    }

    open spec fn spec_error(s: Seq<char>) -> TrimmedRightError {
        TrimmedRightError
    }

    fn check(value: &str) -> (r: Result<(), TrimmedRightError>) {
        let n = value.unicode_len();
        if n == 0 {
            return Ok(());
        }
        if is_whitespace_character(value.get_char(n - 1)) {
            Err(TrimmedRightError)
        } else {
            Ok(())
        }
    }
}

/// Signals that a value is invalid because it only contains whitespace.
///
/// This is used for improved error messages when a value must be trimmed but
/// only contains whitespace.
#[derive(Debug, Clone, Copy, PartialEq, Eq)]
pub struct TrimmedOnlyError;

impl ErrorMessage for TrimmedOnlyError {
    open spec fn spec_message(&self) -> Seq<char> {
        "value contains only whitespace characters"@
    }

    fn message(&self) -> (r: String) {
        "value contains only whitespace characters".to_owned()
    }
}

/// Signals that a value is invalid because it starts and ends with
/// whitespace.
#[derive(Debug, Clone, Copy, PartialEq, Eq)]
pub struct TrimmedBothError;

impl ErrorMessage for TrimmedBothError {
    open spec fn spec_message(&self) -> Seq<char> {
        "value has whitespace at beginning and end"@
    }

    fn message(&self) -> (r: String) {
        "value has whitespace at beginning and end".to_owned()
    }
}

/// Signals that a value is invalid because it starts or ends with
/// whitespace.
#[derive(Debug, Clone, Copy, PartialEq, Eq)]
pub enum TrimmedError {
    /// The value is invalid because it starts with whitespace.
    Left(TrimmedLeftError),
    /// The value is invalid because it ends with whitespace.
    Right(TrimmedRightError),
    /// The value is invalid because it starts and ends with whitespace.
    Both(TrimmedBothError),
    /// The value is invalid because it only contains whitespace.
    Only(TrimmedOnlyError),
}

impl ErrorMessage for TrimmedError {
    open spec fn spec_message(&self) -> Seq<char> {
        match *self {
            TrimmedError::Left(e) => e.spec_message(),
            TrimmedError::Right(e) => e.spec_message(),
            TrimmedError::Both(e) => e.spec_message(),
            TrimmedError::Only(e) => e.spec_message(),
        }
    }

    fn message(&self) -> (r: String) {
        match self {
            TrimmedError::Left(e) => e.message(),
            TrimmedError::Right(e) => e.message(),
            TrimmedError::Both(e) => e.message(),
            TrimmedError::Only(e) => e.message(),
        }
    }
}

/// Ensure a value doesn't begin or end with whitespace.
///
/// A non-empty value consisting of whitespace alone is reported with the
/// dedicated `Only` variant; otherwise the leading and trailing side are
/// judged independently and the failing side (or `Both`) is reported.
pub struct Trimmed {
    _unconstructable: (),
}

impl Check for Trimmed {
    type Error = TrimmedError;

    open spec fn spec_valid(s: Seq<char>) -> bool {
        trimmed_left(s) && trimmed_right(s)
    }

    open spec fn spec_error(s: Seq<char>) -> TrimmedError {
        if s.len() > 0 && all_whitespace(s) {
            TrimmedError::Only(TrimmedOnlyError)
        } else if !trimmed_left(s) && !trimmed_right(s) {
            TrimmedError::Both(TrimmedBothError)
        } else if !trimmed_left(s) {
            TrimmedError::Left(TrimmedLeftError)
        } else {
            TrimmedError::Right(TrimmedRightError)
        }
    }

    fn check(value: &str) -> (r: Result<(), TrimmedError>) {
        let n = value.unicode_len();
        if n == 0 {
            return Ok(());
        }
        let mut i: usize = 0;
        while i < n && is_whitespace_character(value.get_char(i))
            invariant
                i <= n,
                n == value@.len(),
                forall|k: int| 0 <= k < i ==> whitespace_char(#[trigger] value@[k]),
            decreases n - i,
        {
            i = i + 1;
        }
        if i == n {
            return Err(TrimmedError::Only(TrimmedOnlyError));
        }
        let left_ws = is_whitespace_character(value.get_char(0));
        let right_ws = is_whitespace_character(value.get_char(n - 1));
        if left_ws && right_ws {
            Err(TrimmedError::Both(TrimmedBothError))
        } else if left_ws {
            Err(TrimmedError::Left(TrimmedLeftError))
        } else if right_ws {
            Err(TrimmedError::Right(TrimmedRightError))
        } else {
            Ok(())
        }
    }
}

/// The number of leading whitespace characters of `s`.
pub open spec fn trim_lo(s: Seq<char>) -> int {
    first_violation(s, whitespace_pred())
}

/// The index just past the last non-whitespace character of `s`.
pub open spec fn trim_hi(s: Seq<char>) -> int {
    s.len() - first_violation(s.reverse(), whitespace_pred())
}

/// `s` with leading and trailing whitespace removed; what `str::trim`
/// leaves of a string.
pub open spec fn trim_seq(s: Seq<char>) -> Seq<char> {
    if all_whitespace(s) {
        Seq::empty()
    } else {
        s.subrange(trim_lo(s), trim_hi(s))
    }
}

/// For a string that is not whitespace alone, the trim bounds frame the
/// non-whitespace core: whitespace strictly before and after, none at
/// either edge of the core.
pub proof fn lemma_trim_bounds(s: Seq<char>)
    requires
        !all_whitespace(s),
    ensures
        0 <= trim_lo(s) < trim_hi(s) <= s.len(),
        !whitespace_char(s[trim_lo(s)]),
        !whitespace_char(s[trim_hi(s) - 1]),
        forall|k: int| 0 <= k < trim_lo(s) ==> whitespace_char(#[trigger] s[k]),
        forall|k: int| trim_hi(s) <= k < s.len() ==> whitespace_char(#[trigger] s[k]),
{
    lemma_first_violation(s, whitespace_pred());
    lemma_first_violation(s.reverse(), whitespace_pred());
    let m = choose|m: int| 0 <= m < s.len() && !whitespace_char(#[trigger] s[m]);
    let lo = trim_lo(s);
    let hi = trim_hi(s);
    assert(s.reverse().len() == s.len());
    assert(lo <= m) by {
        if m < lo {
            assert(whitespace_pred()(s[m]));
        }
    }
    assert(hi > m) by {
        if hi <= m {
            assert(s.reverse()[s.len() - 1 - m] == s[m]);
            assert(whitespace_pred()(s.reverse()[s.len() - 1 - m]));
        }
    }
    assert(!whitespace_char(s[lo])) by {
        assert(!whitespace_pred()(s[lo]));
    }
    assert(!whitespace_char(s[hi - 1])) by {
        let fv = first_violation(s.reverse(), whitespace_pred());
        assert(fv < s.reverse().len());
        assert(s.reverse()[fv] == s[s.len() - 1 - fv]);
        assert(!whitespace_pred()(s.reverse()[fv]));
    }
    assert forall|k: int| 0 <= k < lo implies whitespace_char(#[trigger] s[k]) by {
        assert(whitespace_pred()(s[k]));
    }
    assert forall|k: int| hi <= k < s.len() implies whitespace_char(#[trigger] s[k]) by {
        assert(s.reverse()[s.len() - 1 - k] == s[k]);
        assert(whitespace_pred()(s.reverse()[s.len() - 1 - k]));
    }
}

/// A string passes `Trimmed` exactly when trimming it changes nothing; and
/// a non-empty string of whitespace alone is reported with the dedicated
/// `Only` variant, never as a one- or two-sided failure.
pub proof fn lemma_trimmed_iff_trim_unchanged(s: Seq<char>)
    ensures
        <Trimmed as Check>::spec_valid(s) <==> trim_seq(s) == s,
        s.len() > 0 && all_whitespace(s) ==> <Trimmed as Check>::spec_error(s)
            == TrimmedError::Only(TrimmedOnlyError),
{
    if s.len() == 0 {
        assert(trim_seq(s) =~= s);
    } else if all_whitespace(s) {
        assert(whitespace_char(s[0]));
        assert(trim_seq(s).len() == 0);
    } else {
        lemma_trim_bounds(s);
        if trimmed_left(s) && trimmed_right(s) {
            assert(trim_lo(s) == 0) by {
                if trim_lo(s) > 0 {
                    assert(whitespace_char(s[0]));
                }
            }
            assert(trim_hi(s) == s.len()) by {
                if trim_hi(s) < s.len() {
                    assert(whitespace_char(s[s.len() - 1]));
                }
            }
            assert(trim_seq(s) =~= s);
        } else {
            if trim_seq(s) == s {
                assert(trim_seq(s).len() == s.len());
                assert(trim_lo(s) == 0 && trim_hi(s) == s.len());
                assert(!whitespace_char(s[0]));
                assert(!whitespace_char(s[s.len() - 1]));
            }
        }
    }
}

/// `s` with leading and trailing whitespace removed.
fn trim_str(value: &str) -> (r: &str)
    ensures
        r@ == trim_seq(value@),
{
    let ghost s = value@;
    let n = value.unicode_len();
    let mut lo: usize = 0;
    while lo < n && is_whitespace_character(value.get_char(lo))
        invariant
            lo <= n,
            n == s.len(),
            s == value@,
            forall|k: int| 0 <= k < lo ==> whitespace_char(#[trigger] s[k]),
        decreases n - lo,
    {
        lo = lo + 1;
    }
    if lo == n {
        let r = value.substring_char(0, 0);
        proof {
            assert(all_whitespace(s));
            assert(r@ =~= trim_seq(s));
        }
        return r;
    }
    let mut hi: usize = n;
    while hi > lo + 1 && is_whitespace_character(value.get_char(hi - 1))
        invariant
            lo < hi <= n,
            n == s.len(),
            s == value@,
            !whitespace_char(s[lo as int]),
            forall|k: int| hi <= k < n ==> whitespace_char(#[trigger] s[k]),
        decreases hi,
    {
        hi = hi - 1;
    }
    proof {
        assert(!all_whitespace(s));
        lemma_trim_bounds(s);
        lemma_first_violation(s, whitespace_pred());
        assert(trim_lo(s) == lo) by {
            if trim_lo(s) < lo {
                assert(whitespace_char(s[trim_lo(s)]));
            }
            if trim_lo(s) > lo {
                assert(whitespace_char(s[lo as int]));
            }
        }
        assert(!whitespace_char(s[hi - 1])) by {
            if hi > lo + 1 {
                // the trailing loop stopped on a non-whitespace character
            } else {
                assert(hi - 1 == lo);
            }
        }
        assert(trim_hi(s) == hi) by {
            if trim_hi(s) < hi {
                assert(whitespace_char(s[hi - 1]));
            }
            if trim_hi(s) > hi {
                assert(whitespace_char(s[trim_hi(s) - 1]));
            }
        }
    }
    let r = value.substring_char(lo, hi);
    proof {
        assert(r@ =~= trim_seq(s));
    }
    r
}

/// Signals that a value is invalid because it failed a check when trimmed.
///
/// The contained value is the error of the failed check.
#[derive(Debug, Clone, Copy, PartialEq, Eq)]
pub struct WhenTrimmedError<T>(pub T);

impl<E: ErrorMessage> ErrorMessage for WhenTrimmedError<E> {
    open spec fn spec_message(&self) -> Seq<char> {
        self.0.spec_message() + " when trimmed"@
    }

    fn message(&self) -> (r: String) {
        let mut s = self.0.message();
        s.append(" when trimmed");
        s
    }
}

/// Ensure a value passes a check when whitespace is trimmed off the
/// beginning and end.
pub struct WhenTrimmed<T> {
    _inner: T,
    _unconstructable: (),
}

impl<T: Check> Check for WhenTrimmed<T> {
    type Error = WhenTrimmedError<T::Error>;

    open spec fn spec_valid(s: Seq<char>) -> bool {
        T::spec_valid(trim_seq(s))
    }

    open spec fn spec_error(s: Seq<char>) -> WhenTrimmedError<T::Error> {
        WhenTrimmedError(T::spec_error(trim_seq(s)))
    }

    fn check(value: &str) -> (r: Result<(), WhenTrimmedError<T::Error>>) {
        match T::check(trim_str(value)) {
            Ok(()) => Ok(()),
            Err(error) => Err(WhenTrimmedError(error)),
        }
    }
}

/// Signals that a value is invalid because it failed one of two checks.
#[derive(Debug, Clone, Copy, PartialEq, Eq)]
pub enum AndError<E1, E2> {
    /// The left check has failed with the enclosed error.
    Err1(E1),
    /// The right check has failed with the enclosed error.
    Err2(E2),
}

impl<E1: ErrorMessage, E2: ErrorMessage> ErrorMessage for AndError<E1, E2> {
    open spec fn spec_message(&self) -> Seq<char> {
        match *self {
            AndError::Err1(e) => e.spec_message(),
            AndError::Err2(e) => e.spec_message(),
        }
    }

    fn message(&self) -> (r: String) {
        match self {
            AndError::Err1(e) => e.message(),
            AndError::Err2(e) => e.message(),
        }
    }
}

/// Ensure a value passes two checks.
///
/// This type can be nested to combine any number of checks.  The left check
/// is run first and its error is reported whenever it fails, whatever the
/// right check would say; the right check's error is reported only when the
/// left check passes.
pub struct And<T1, T2> {
    _check_1: T1,
    _check_2: T2,
    _unconstructable: (),
}

impl<T1: Check, T2: Check> Check for And<T1, T2> {
    type Error = AndError<T1::Error, T2::Error>;

    open spec fn spec_valid(s: Seq<char>) -> bool {
        T1::spec_valid(s) && T2::spec_valid(s)
    }

    open spec fn spec_error(s: Seq<char>) -> AndError<T1::Error, T2::Error> {
        if !T1::spec_valid(s) {
            AndError::Err1(T1::spec_error(s))
        } else {
            AndError::Err2(T2::spec_error(s))
        }
    }

    fn check(value: &str) -> (r: Result<(), AndError<T1::Error, T2::Error>>) {
        match T1::check(value) {
            Err(error) => Err(AndError::Err1(error)),
            Ok(()) => match T2::check(value) {
                Err(error) => Err(AndError::Err2(error)),
                Ok(()) => Ok(()),
            },
        }
    }
}

/// Whether `c` may start an identifier: an ASCII letter or an underscore.
pub open spec fn identifier_start_char(c: char) -> bool {
    let n: u32 = c as u32;
    (0x41 <= n && n <= 0x5a) || (0x61 <= n && n <= 0x7a) || n == 0x5f
}

/// Whether `c` may continue an identifier: an ASCII letter, an ASCII digit
/// or an underscore.
pub open spec fn identifier_rest_char(c: char) -> bool {
    let n: u32 = c as u32;
    identifier_start_char(c) || (0x30 <= n && n <= 0x39)
}

/// Whether `c` may appear in a relaxed identifier: an ASCII letter, an
/// ASCII digit, an underscore or a hyphen.
pub open spec fn identifier_lax_char(c: char) -> bool {
    identifier_rest_char(c) || c as u32 == 0x2d
}

/// The continuation-character predicate as a shared function value.
pub open spec fn identifier_rest_pred() -> spec_fn(char) -> bool {
    |c: char| identifier_rest_char(c)
}

/// The relaxed-identifier predicate as a shared function value.
pub open spec fn identifier_lax_pred() -> spec_fn(char) -> bool {
    |c: char| identifier_lax_char(c)
}

/// Whether `c` may start an identifier.
fn is_identifier_start_character(c: char) -> (r: bool)
    ensures
        r == identifier_start_char(c),
{
    let n: u32 = c as u32;
    (0x41 <= n && n <= 0x5a) || (0x61 <= n && n <= 0x7a) || n == 0x5f
}

/// Whether `c` may continue an identifier.
fn is_identifier_rest_character(c: char) -> (r: bool)
    ensures
        r == identifier_rest_char(c),
{
    let n: u32 = c as u32;
    is_identifier_start_character(c) || (0x30 <= n && n <= 0x39)
}

/// Whether `c` may appear in a relaxed identifier.
fn is_identifier_lax_character(c: char) -> (r: bool)
    ensures
        r == identifier_lax_char(c),
{
    is_identifier_rest_character(c) || c as u32 == 0x2d
}

/// Signals that a value is not a valid lax identifier.
#[derive(Debug, Clone, Copy, PartialEq, Eq)]
pub enum IdentifierLaxError {
    /// The value is empty.
    Empty(NotEmptyError),
    /// The value contains an invalid character.
    InvalidChar(char),
}

impl ErrorMessage for IdentifierLaxError {
    open spec fn spec_message(&self) -> Seq<char> {
        match *self {
            IdentifierLaxError::Empty(e) => e.spec_message(),
            IdentifierLaxError::InvalidChar(c) => "value contains invalid character `"@
                + escaped_char(c) + "`"@,
        }
    }

    fn message(&self) -> (r: String) {
        match self {
            IdentifierLaxError::Empty(e) => e.message(),
            IdentifierLaxError::InvalidChar(c) => {
                let mut s = "value contains invalid character `".to_owned();
                let escaped = escape_default_string(*c);
                s.append(escaped.as_str());
                s.append("`");
                proof {
                    assert(s@ =~= self.spec_message());
                }
                s
            },
        }
    }
}

/// Ensure a value is a valid relaxed identifier.
///
/// To be a valid relaxed identifier, a value has to be non-empty and only
/// contain ASCII letters, ASCII digits, underscores and hyphens, in any
/// position.
pub struct IdentifierLax {
    _unconstructable: (),
}

impl Check for IdentifierLax {
    type Error = IdentifierLaxError;

    open spec fn spec_valid(s: Seq<char>) -> bool {
        s.len() > 0 && forall|k: int| 0 <= k < s.len() ==> identifier_lax_char(#[trigger] s[k])
    }

    open spec fn spec_error(s: Seq<char>) -> IdentifierLaxError {
        if s.len() == 0 {
            IdentifierLaxError::Empty(NotEmptyError)
        } else {
            IdentifierLaxError::InvalidChar(s[first_violation(s, identifier_lax_pred())])
        }
    }

    fn check(value: &str) -> (r: Result<(), IdentifierLaxError>) {
        let ghost s = value@;
        let n = value.unicode_len();
        if n == 0 {
            return Err(IdentifierLaxError::Empty(NotEmptyError));
        }
        let mut i: usize = 0;
        while i < n
            invariant
                i <= n,
                n == s.len(),
                s == value@,
                forall|k: int| 0 <= k < i ==> identifier_lax_char(#[trigger] s[k]),
            decreases n - i,
        {
            let c = value.get_char(i);
            if !is_identifier_lax_character(c) {
                proof {
                    lemma_first_violation(s, identifier_lax_pred());
                    assert forall|k: int| 0 <= k < i implies identifier_lax_pred()(
                        #[trigger] s[k],
                    ) by {}
                    assert(first_violation(s, identifier_lax_pred()) == i) by {
                        let fv = first_violation(s, identifier_lax_pred());
                        if fv < i {
                            assert(identifier_lax_pred()(s[fv]));
                        }
                        if fv > i {
                            assert(identifier_lax_pred()(s[i as int]));
                        }
                    }
                }
                return Err(IdentifierLaxError::InvalidChar(c));
            }
            i = i + 1;
        }
        Ok(())
    }
}

/// Signals that a value is not a valid identifier.
#[derive(Debug, Clone, Copy, PartialEq, Eq)]
pub enum IdentifierError {
    /// The value is empty.
    Empty(NotEmptyError),
    /// The value begins with an invalid character.
    InvalidStartChar(char),
    /// One of the characters after the first is invalid.
    InvalidRestChar(char),
}

impl ErrorMessage for IdentifierError {
    open spec fn spec_message(&self) -> Seq<char> {
        match *self {
            IdentifierError::Empty(e) => e.spec_message(),
            IdentifierError::InvalidStartChar(c) => "value begins with invalid character `"@
                + escaped_char(c) + "`"@,
            IdentifierError::InvalidRestChar(c) => "value contains invalid character `"@
                + escaped_char(c) + "`"@,
        }
    }

    fn message(&self) -> (r: String) {
        match self {
            IdentifierError::Empty(e) => e.message(),
            IdentifierError::InvalidStartChar(c) => {
                let mut s = "value begins with invalid character `".to_owned();
                let escaped = escape_default_string(*c);
                s.append(escaped.as_str());
                s.append("`");
                proof {
                    assert(s@ =~= self.spec_message());
                }
                s
            },
            IdentifierError::InvalidRestChar(c) => {
                let mut s = "value contains invalid character `".to_owned();
                let escaped = escape_default_string(*c);
                s.append(escaped.as_str());
                s.append("`");
                proof {
                    assert(s@ =~= self.spec_message());
                }
                s
            },
        }
    }
}

/// Ensure a value is a valid identifier.
///
/// To be a valid identifier, a value has to be non-empty, start with an
/// ASCII letter or underscore, and continue with ASCII letters, ASCII
/// digits or underscores only.
pub struct Identifier {
    _unconstructable: (),
}

impl Check for Identifier {
    type Error = IdentifierError;

    open spec fn spec_valid(s: Seq<char>) -> bool {
        s.len() > 0 && identifier_start_char(s[0]) && forall|k: int|
            1 <= k < s.len() ==> identifier_rest_char(#[trigger] s[k])
    }

    open spec fn spec_error(s: Seq<char>) -> IdentifierError {
        if s.len() == 0 {
            IdentifierError::Empty(NotEmptyError)
        } else if !identifier_start_char(s[0]) {
            IdentifierError::InvalidStartChar(s[0])
        } else {
            IdentifierError::InvalidRestChar(
                s[1 + first_violation(s.drop_first(), identifier_rest_pred())],
            )
        }
    }

    fn check(value: &str) -> (r: Result<(), IdentifierError>) {
        let ghost s = value@;
        let n = value.unicode_len();
        if n == 0 {
            return Err(IdentifierError::Empty(NotEmptyError));
        }
        let start_char = value.get_char(0);
        if !is_identifier_start_character(start_char) {
            return Err(IdentifierError::InvalidStartChar(start_char));
        }
        let mut i: usize = 1;
        while i < n
            invariant
                1 <= i <= n,
                n == s.len(),
                s == value@,
                identifier_start_char(s[0]),
                forall|k: int| 1 <= k < i ==> identifier_rest_char(#[trigger] s[k]),
            decreases n - i,
        {
            let c = value.get_char(i);
            if !is_identifier_rest_character(c) {
                proof {
                    let rest = s.drop_first();
                    lemma_first_violation(rest, identifier_rest_pred());
                    assert(first_violation(rest, identifier_rest_pred()) == i - 1) by {
                        let fv = first_violation(rest, identifier_rest_pred());
                        if fv < i - 1 {
                            assert(rest[fv] == s[fv + 1]);
                            assert(identifier_rest_pred()(rest[fv]));
                        }
                        if fv > i - 1 {
                            assert(rest[i - 1] == s[i as int]);
                            assert(identifier_rest_pred()(rest[i - 1]));
                        }
                        assert(rest[i - 1] == s[i as int]);
                    }
                    assert(s[1 + first_violation(rest, identifier_rest_pred())] == s[i as int]);
                }
                return Err(IdentifierError::InvalidRestChar(c));
            }
            i = i + 1;
        }
        Ok(())
    }
}

/// Signals that a value is too large bytewise to be valid.
#[derive(Debug, Clone, Copy, PartialEq, Eq)]
pub struct MaxBytesError {
    /// Maximum allowed byte length.
    pub max: usize,
    /// Actual byte length of the value.
    pub len: usize,
}

impl ErrorMessage for MaxBytesError {
    open spec fn spec_message(&self) -> Seq<char> {
        "length of "@ + decimal_seq(self.len as nat) + " exceeds limit of "@ + decimal_seq(
            self.max as nat,
        )
    }

    fn message(&self) -> (r: String) {
        let mut s = "length of ".to_owned();
        push_decimal(&mut s, self.len);
        s.append(" exceeds limit of ");
        push_decimal(&mut s, self.max);
        proof {
            assert(s@ =~= self.spec_message());
        }
        s
    }
}

/// The length of `s` in bytes of its UTF-8 encoding.
pub open spec fn byte_length(s: Seq<char>) -> nat {
    vstd::utf8::encode_utf8(s).len()
}

/// Ensure a value is at most 256 bytes long.
pub struct MaxBytes256 {
    _unconstructable: (),
}

impl Check for MaxBytes256 {
    type Error = MaxBytesError;

    open spec fn spec_valid(s: Seq<char>) -> bool {
        byte_length(s) <= 256
    }

    open spec fn spec_error(s: Seq<char>) -> MaxBytesError {
        MaxBytesError { max: 256, len: byte_length(s) as usize }
    }

    fn check(value: &str) -> (r: Result<(), MaxBytesError>) {
        let length: usize = value.as_bytes().len();
        if length <= 256 {
            Ok(())
        } else {
            Err(MaxBytesError { max: 256, len: length })
        }
    }
}

/// Ensure a value is at most 512 bytes long.
pub struct MaxBytes512 {
    _unconstructable: (),
}

impl Check for MaxBytes512 {
    type Error = MaxBytesError;

    open spec fn spec_valid(s: Seq<char>) -> bool {
        byte_length(s) <= 512
    }

    open spec fn spec_error(s: Seq<char>) -> MaxBytesError {
        MaxBytesError { max: 512, len: byte_length(s) as usize }
    }

    fn check(value: &str) -> (r: Result<(), MaxBytesError>) {
        let length: usize = value.as_bytes().len();
        if length <= 512 {
            Ok(())
        } else {
            Err(MaxBytesError { max: 512, len: length })
        }
    }
}

/// Ensure a value is at most 1024 bytes long.
pub struct MaxBytes1024 {
    _unconstructable: (),
}

impl Check for MaxBytes1024 {
    type Error = MaxBytesError;

    open spec fn spec_valid(s: Seq<char>) -> bool {
        byte_length(s) <= 1024
    }

    open spec fn spec_error(s: Seq<char>) -> MaxBytesError {
        MaxBytesError { max: 1024, len: byte_length(s) as usize }
    }

    fn check(value: &str) -> (r: Result<(), MaxBytesError>) {
        let length: usize = value.as_bytes().len();
        if length <= 1024 {
            Ok(())
        } else {
            Err(MaxBytesError { max: 1024, len: length })
        }
    }
}

} // verus!
