//! Syntactic validation of ledger identifiers.
//!
//! A ledger identifier is between 2 and 64 characters long and consists of
//! parts of lowercase letters and digits joined by single separators
//! (`.`, `-` or `_`): a separator never starts or ends the identifier and
//! two separators are never adjacent. Ownership and manager updates reject
//! malformed identifiers with a `Validation` failure.

use vstd::prelude::*;
use vstd::string::StrSliceExecFns;

verus! {

/// Lowercase ASCII letter or ASCII digit.
pub open spec fn is_name_char(c: char) -> bool {
    ('a' <= c && c <= 'z') || ('0' <= c && c <= '9')
}

/// One of the three part separators.
pub open spec fn is_separator_char(c: char) -> bool {
    c == '-' || c == '_' || c == '.'
}

/// The identifier grammar: bounded length, only name characters and
/// separators, no separator at either end, no two adjacent separators.
pub open spec fn valid_account_id(s: Seq<char>) -> bool {
    &&& 2 <= s.len() <= 64
    &&& forall|i: int| 0 <= i < s.len() ==> is_name_char(s[i]) || is_separator_char(s[i])
    &&& !is_separator_char(s[0])
    &&& !is_separator_char(s[s.len() - 1])
    &&& forall|i: int| 1 <= i < s.len() ==> !(is_separator_char(s[i - 1]) && #[trigger] is_separator_char(s[i]))
}

/// Decide whether `id` is a well-formed ledger identifier.
pub fn is_valid_account_id(id: &str) -> (r: bool)
    ensures
        r == valid_account_id(id@),
{
    let n = id.unicode_len();
    if n < 2 || n > 64 {
        return false;
    }
    let mut i: usize = 0;
    let mut prev_sep = false;
    while i < n
        invariant
            2 <= n <= 64,
            n == id@.len(),
            i <= n,
            forall|j: int| 0 <= j < i ==> is_name_char(id@[j]) || is_separator_char(id@[j]),
            i > 0 ==> !is_separator_char(id@[0]),
            forall|j: int| 1 <= j < i ==> !(is_separator_char(id@[j - 1]) && #[trigger] is_separator_char(id@[j])),
            prev_sep == (i > 0 && is_separator_char(id@[i - 1])),
            i == n ==> !prev_sep,
        decreases n - i,
    {
        let c = id.get_char(i);
        let name = ('a' <= c && c <= 'z') || ('0' <= c && c <= '9');
        let sep = c == '-' || c == '_' || c == '.';
        if !name && !sep {
            return false;
        }
        if sep && (i == 0 || prev_sep || i == n - 1) {
            return false;
        }
        prev_sep = sep;
        i += 1;
    }
    true
}

} // verus!
