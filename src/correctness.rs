//! Validation of identifier text.

use vstd::prelude::*;
use vstd::string::*;

verus! {

/// A Unicode `White_Space` character, as `char::is_whitespace` classifies it.
pub open spec fn is_whitespace_char(c: char) -> bool {
    let v = c as u32;
    (0x09 <= v <= 0x0d) || v == 0x20 || v == 0x85 || v == 0xa0 || v == 0x1680
        || (0x2000 <= v <= 0x200a) || v == 0x2028 || v == 0x2029 || v == 0x202f
        || v == 0x205f || v == 0x3000
}

/// A control character (general category `Cc`), as `char::is_control` classifies it.
pub open spec fn is_control_char(c: char) -> bool {
    let v = c as u32;
    v <= 0x1f || (0x7f <= v <= 0x9f)
}

pub open spec fn all_whitespace(s: Seq<char>) -> bool {
    forall|i: int| 0 <= i < s.len() ==> is_whitespace_char(#[trigger] s[i])
}

pub open spec fn has_control(s: Seq<char>) -> bool {
    exists|i: int| 0 <= i < s.len() && is_control_char(#[trigger] s[i])
}

/// Text that may name an entity: non-empty, not only whitespace, and free of
/// control characters.
pub open spec fn is_valid_text(s: Seq<char>) -> bool {
    s.len() > 0 && !all_whitespace(s) && !has_control(s)
}

/// Why a text was refused as an identifier.
#[derive(Clone, Copy, Debug, PartialEq, Eq, Structural)]
pub enum IdentifierError {
    Empty,
    AllWhitespace,
    ControlCharacter,
}

/// The reason, checked in this order, why `s` is not valid text.
pub open spec fn text_error(s: Seq<char>) -> IdentifierError {
    if s.len() == 0 {
        IdentifierError::Empty
    } else if all_whitespace(s) {
        IdentifierError::AllWhitespace
    } else {
        IdentifierError::ControlCharacter
    }
}

fn char_is_whitespace(c: char) -> (r: bool)
    ensures
        r == is_whitespace_char(c),
{
    let v = c as u32;
    (0x09 <= v && v <= 0x0d) || v == 0x20 || v == 0x85 || v == 0xa0 || v == 0x1680
        || (0x2000 <= v && v <= 0x200a) || v == 0x2028 || v == 0x2029 || v == 0x202f
        || v == 0x205f || v == 0x3000
}

fn char_is_control(c: char) -> (r: bool)
    ensures
        r == is_control_char(c),
{
    let v = c as u32;
    v <= 0x1f || (0x7f <= v && v <= 0x9f)
}

/// Checks that `value` is valid identifier text.
pub fn check_valid_string(value: &str) -> (r: Result<(), IdentifierError>)
    ensures
        r is Ok <==> is_valid_text(value@),
        r is Err ==> r == Err::<(), IdentifierError>(text_error(value@)),
{
    let n = value.unicode_len();
    if n == 0 {
        return Err(IdentifierError::Empty);
    }
    let mut all_ws = true;
    let mut any_control = false;
    let mut i: usize = 0;
    while i < n
        invariant
            n == value@.len(),
            i <= n,
            all_ws == all_whitespace(value@.subrange(0, i as int)),
            any_control == has_control(value@.subrange(0, i as int)),
        decreases n - i,
    {
        let c = value.get_char(i);
        proof {
            let s = value@.subrange(0, i as int);
            let t = value@.subrange(0, i + 1);
            assert forall|j: int| 0 <= j < i implies t[j] == s[j] by {}
            assert(t[i as int] == c);
            if has_control(t) && !has_control(s) {
                let j = choose|j: int| 0 <= j < t.len() && is_control_char(#[trigger] t[j]);
                if j < i {
                    assert(is_control_char(s[j]));
                }
            }
            if has_control(s) {
                let j = choose|j: int| 0 <= j < s.len() && is_control_char(#[trigger] s[j]);
                assert(is_control_char(t[j]));
            }
        }
        all_ws = all_ws && char_is_whitespace(c);
        any_control = any_control || char_is_control(c);
        i = i + 1;
    }
    assert(value@.subrange(0, n as int) =~= value@);
    if all_ws {
        Err(IdentifierError::AllWhitespace)
    } else if any_control {
        Err(IdentifierError::ControlCharacter)
    } else {
        Ok(())
    }
}

} // verus!
