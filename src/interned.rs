//! Process-wide interned strings, provided by the `ustr` crate.

use vstd::prelude::*;

verus! {

#[verifier::external_type_specification]
#[verifier::external_body]
pub struct ExUstr(ustr::Ustr);

/// The text that an interned handle stands for.
pub uninterp spec fn ustr_text(u: ustr::Ustr) -> Seq<char>;

/// Relies on `Ustr::from`: it inserts the text into the global cache (or finds it
/// there) and returns a handle to that text.
pub assume_specification[ ustr::Ustr::from ](string: &str) -> (r: ustr::Ustr)
    ensures
        ustr_text(r) == string@,
;

/// Relies on `Ustr::as_str`: it returns the cached text of the handle.
pub assume_specification[ ustr::Ustr::as_str ](u: &ustr::Ustr) -> (r: &'static str)
    ensures
        r@ == ustr_text(*u),
;

/// Relies on the `Hash` impl of `Ustr`, which feeds the text's precomputed hash
/// to `state`; nothing is stated of the hasher's state.
pub assume_specification<H: core::hash::Hasher>[ <ustr::Ustr as core::hash::Hash>::hash::<H> ](
    u: &ustr::Ustr,
    state: &mut H,
);

/// Relies on the derived `PartialEq` of `Ustr`: it compares the cache pointers,
/// and the cache holds each distinct text once, so two handles are equal exactly
/// when their texts are.
#[verifier::external_body]
pub(crate) fn ustr_eq(a: &ustr::Ustr, b: &ustr::Ustr) -> (r: bool)
    ensures
        r == (ustr_text(*a) == ustr_text(*b)),
{
    *a == *b
}

} // verus!
