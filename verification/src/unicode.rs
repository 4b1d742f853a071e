//! The trusted boundary to the platform's Unicode character properties.
//!
//! The classifier needs three properties of a scalar value that are defined
//! by the Unicode character database rather than by this library: the
//! White_Space property, the alphanumeric property, and the general
//! category. Each is a pure function of the scalar value alone, so each is
//! modelled by an uninterpreted spec function, and the single call that
//! computes it is wrapped in a trusted item whose contract ties the runtime
//! result to that name. Everything that this library decides about those
//! results (which categories count as punctuation, what precedence applies)
//! stays in verified code.

use vstd::prelude::*;

verus! {

/// The Unicode White_Space property of a scalar value, as
/// `char::is_whitespace` reports it.
pub uninterp spec fn is_unicode_whitespace(c: char) -> bool;

/// The Unicode alphanumeric property of a scalar value, as
/// `char::is_alphanumeric` reports it.
pub uninterp spec fn is_unicode_alphanumeric(c: char) -> bool;

/// The name of the Unicode general category of a scalar value, spelled as
/// the Unicode Standard spells it ("OtherPunctuation", "MathSymbol", ...).
pub uninterp spec fn general_category_name_of(c: char) -> Seq<char>;

/// Relies on `char::is_whitespace`: whether a scalar value has the
/// White_Space property, a function of that value alone.
#[verifier::external_body]
pub(crate) fn unicode_whitespace(ch: char) -> (r: bool)
    ensures
        r == is_unicode_whitespace(ch),
{
    ch.is_whitespace()
}

/// Relies on `char::is_alphanumeric`: whether a scalar value is
/// alphanumeric (a letter or a number), a function of that value alone.
#[verifier::external_body]
pub(crate) fn unicode_alphanumeric(ch: char) -> (r: bool)
    ensures
        r == is_unicode_alphanumeric(ch),
{
    ch.is_alphanumeric()
}

/// Relies on `unicode_general_category::get_general_category`: the Unicode
/// general category of a scalar value, a function of that value alone. The
/// category is handed back under its variant name, which the crate's
/// derived `Debug` prints exactly.
#[verifier::external_body]
pub(crate) fn general_category_name(ch: char) -> (name: String)
    ensures
        name@ == general_category_name_of(ch),
{
    format!("{:?}", unicode_general_category::get_general_category(ch))
}

} // verus!
