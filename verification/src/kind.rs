//! Predefined text kinds.
//!
//! It is probably more convenient to use the text type aliases exported from
//! the top level instead of directly using these kinds.  That way it is
//! possible to say `Title<String>` instead of `Text<Title, String>`.
//!
//! See the `check` module for predefined check types.
use vstd::prelude::*;
use crate::check;
use crate::check::control_char;
use crate::check::identifier_rest_char;
use crate::check::identifier_start_char;
use crate::check::whitespace_char;
use crate::Check;
use crate::Kind;

verus! {

/// Text kind representing a title.
///
/// This kind combines the predefined `Title` check with the `MaxBytes512`
/// check.
#[derive(Debug, Clone, Copy, Hash)]
pub struct Title {
    _unconstructable: (),
}

impl Kind for Title {
    type Check = check::And<check::MaxBytes512, check::Title>;

    open spec fn spec_description() -> Seq<char> {
        "title"@
    }

    fn description() -> (r: &'static str) {
        "title"
    }
}

/// Text kind representing an identifier.
///
/// This kind combines the predefined `Identifier` check with the
/// `MaxBytes512` check.
#[derive(Debug, Clone, Copy, Hash)]
pub struct Identifier {
    _unconstructable: (),
}

impl Kind for Identifier {
    type Check = check::And<check::MaxBytes512, check::Identifier>;

    open spec fn spec_description() -> Seq<char> {
        "identifier"@
    }

    fn description() -> (r: &'static str) {
        "identifier"
    }
}

/// Text kind representing a relaxed identifier.
///
/// This kind combines the predefined `IdentifierLax` check with the
/// `MaxBytes512` check.
#[derive(Debug, Clone, Copy, Hash)]
pub struct IdentifierLax {
    _unconstructable: (),
}

impl Kind for IdentifierLax {
    type Check = check::And<check::MaxBytes512, check::IdentifierLax>;

    open spec fn spec_description() -> Seq<char> {
        "identifier"@
    }

    fn description() -> (r: &'static str) {
        "identifier"
    }
}

/// A string accepted by the identifier kind is always accepted by the title
/// kind: identifier characters are ASCII letters, digits and underscores,
/// which are neither control characters nor whitespace, and both kinds share
/// the same byte-length ceiling.
pub proof fn lemma_identifier_is_valid_title(s: Seq<char>)
    requires
        <<Identifier as Kind>::Check as Check>::spec_valid(s),
    ensures
        <<Title as Kind>::Check as Check>::spec_valid(s),
{
    assert forall|k: int| 0 <= k < s.len() implies !control_char(#[trigger] s[k])
        && !whitespace_char(s[k]) by {
        if k == 0 {
            assert(identifier_start_char(s[0]));
        } else {
            assert(identifier_rest_char(s[k]));
        }
    }
    assert(s.len() > 0);
}

} // verus!
