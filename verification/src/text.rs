//! Helpers for the small text formats of the dashboard.

use vstd::prelude::*;
use vstd::string::StrSliceExecFns;

verus! {

/// The number that std's `str::parse::<usize>` reads from a text; `None`
/// where it refuses the text.
pub uninterp spec fn parsed_usize(text: Seq<char>) -> Option<usize>;

/// Calls std's `str::parse::<usize>`. Trusted: the result depends on the text
/// alone, so it has a name; nothing is claimed of which texts are numbers.
#[verifier::external_body]
pub(crate) fn parse_usize(text: &str) -> (r: Option<usize>)
    ensures
        r == parsed_usize(text@),
{
    text.parse::<usize>().ok()
}

/// The text that std's `str::trim` leaves of a text: the text without the
/// white space at its two ends.
pub uninterp spec fn trimmed(text: Seq<char>) -> Seq<char>;

/// Calls std's `str::trim`. Trusted: the result depends on the text alone,
/// so it has a name; which characters count as white space is not stated.
#[verifier::external_body]
pub(crate) fn trim(text: &str) -> (r: String)
    ensures
        r@ == trimmed(text@),
{
    text.trim().to_string()
}

/// Index of the first `sep` in `s` from `from` on; the length of `s` where
/// there is none.
pub open spec fn next_sep(s: Seq<char>, sep: char, from: int) -> int
    decreases s.len() - from,
{
    if from < 0 || from >= s.len() {
        s.len() as int
    } else if s[from] == sep {
        from
    } else {
        next_sep(s, sep, from + 1)
    }
}

/// Finds the first `sep` in `s` from the character index `from` on.
pub fn find_sep(s: &str, sep: char, from: usize) -> (r: usize)
    requires
        from <= s@.len(),
    ensures
        r == next_sep(s@, sep, from as int),
        from <= r <= s@.len(),
{
    let n = s.unicode_len();
    let mut i: usize = from;
    while i < n
        invariant
            from <= i <= n,
            n == s@.len(),
            next_sep(s@, sep, from as int) == next_sep(s@, sep, i as int),
        decreases n - i,
    {
        if s.get_char(i) == sep {
            return i;
        }
        i += 1;
    }
    i
}

/// Whether two texts are the same.
pub fn str_is(a: &str, b: &str) -> (r: bool)
    ensures
        r == (a@ == b@),
{
    let x = a.to_owned();
    let y = b.to_owned();
    x == y
}

} // verus!
