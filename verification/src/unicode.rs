//! The standard library's Unicode text functions that the commands apply to
//! what the user types: trimming and case conversion.

use vstd::prelude::*;

verus! {

/// The characters of the Unicode property `White_Space`, which is what
/// `char::is_whitespace` tests.
pub open spec fn is_white_space(c: char) -> bool {
    ||| '\u{9}' <= c <= '\u{d}'
    ||| c == ' '
    ||| c == '\u{85}'
    ||| c == '\u{a0}'
    ||| c == '\u{1680}'
    ||| '\u{2000}' <= c <= '\u{200a}'
    ||| c == '\u{2028}'
    ||| c == '\u{2029}'
    ||| c == '\u{202f}'
    ||| c == '\u{205f}'
    ||| c == '\u{3000}'
}

/// `s` without the white space at its start.
pub open spec fn without_leading_space(s: Seq<char>) -> Seq<char>
    decreases s.len(),
{
    if s.len() > 0 && is_white_space(s[0]) {
        without_leading_space(s.drop_first())
    } else {
        s
    }
}

/// `s` without the white space at its end.
pub open spec fn without_trailing_space(s: Seq<char>) -> Seq<char>
    decreases s.len(),
{
    if s.len() > 0 && is_white_space(s.last()) {
        without_trailing_space(s.drop_last())
    } else {
        s
    }
}

/// `s` without white space at either end.
pub open spec fn trimmed(s: Seq<char>) -> Seq<char> {
    without_trailing_space(without_leading_space(s))
}

/// What `str::to_uppercase` returns for a text (full Unicode case mapping,
/// independent of locale).
pub uninterp spec fn uppercased(s: Seq<char>) -> Seq<char>;

/// What `str::to_lowercase` returns for a text (full Unicode case mapping,
/// independent of locale).
pub uninterp spec fn lowercased(s: Seq<char>) -> Seq<char>;

/// Calls `str::trim`, which removes the leading and trailing characters for
/// which `char::is_whitespace` holds, that is those of the Unicode property
/// `White_Space`; the contract states exactly that.
#[verifier::external_body]
pub(crate) fn trim_text(s: &str) -> (res: String)
    ensures
        res@ == trimmed(s@),
{
    s.trim().to_string()
}

/// Calls `str::to_uppercase`. The contract names its result and says nothing
/// more of it: the Unicode case tables decide it.
#[verifier::external_body]
pub(crate) fn upper_text(s: &str) -> (res: String)
    ensures
        res@ == uppercased(s@),
{
    s.to_uppercase()
}

/// Calls `str::to_lowercase`. The contract names its result and says nothing
/// more of it: the Unicode case tables decide it.
#[verifier::external_body]
pub(crate) fn lower_text(s: &str) -> (res: String)
    ensures
        res@ == lowercased(s@),
{
    s.to_lowercase()
}

} // verus!
