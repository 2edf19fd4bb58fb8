//! ASCII case-insensitive comparison of text, used for header field names
//! and content-encoding values.

use vstd::prelude::*;

verus! {

/// The code of a character with an ASCII upper-case letter folded to its
/// lower-case counterpart; every other character keeps its own code.
pub open spec fn fold_code(c: char) -> int {
    if 'A' as int <= c as int && c as int <= 'Z' as int {
        c as int + 32
    } else {
        c as int
    }
}

/// Two character sequences are an ASCII case-insensitive match: same
/// length, and equal position by position once upper-case ASCII letters
/// are folded to lower case.
pub open spec fn eq_ignore_case(a: Seq<char>, b: Seq<char>) -> bool {
    a.len() == b.len() && forall|i: int| 0 <= i < a.len() ==> fold_code(a[i]) == fold_code(b[i])
}

/// Relies on str::eq_ignore_ascii_case: true exactly when the two strings
/// are equal after mapping ASCII upper-case letters to lower case, with
/// all other characters compared as they are.
#[verifier::external_body]
pub(crate) fn str_eq_ignore_case(a: &str, b: &str) -> (r: bool)
    ensures
        r == eq_ignore_case(a@, b@),
{
    a.eq_ignore_ascii_case(b)
}

} // verus!
