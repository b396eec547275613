//! Form bodies as the dashboard's pages post them.

use url::form_urlencoded;
use vstd::prelude::*;

verus! {

/// The (name, value) pairs that `form_urlencoded::parse` reads from a body
/// in the `application/x-www-form-urlencoded` syntax, in their order.
pub uninterp spec fn form_pairs(body: Seq<u8>) -> Seq<(Seq<char>, Seq<char>)>;

/// The pairs as texts.
pub open spec fn pairs_view(pairs: Seq<(String, String)>) -> Seq<(Seq<char>, Seq<char>)> {
    Seq::new(pairs.len(), |i: int| (pairs[i].0@, pairs[i].1@))
}

/// Calls `form_urlencoded::parse` of `url` and collects the pairs that its
/// iterator yields. Trusted: the pairs depend on the body alone, so they
/// have a name; nothing is claimed of what they are.
#[verifier::external_body]
pub(crate) fn parse_form(body: &[u8]) -> (pairs: Vec<(String, String)>)
    ensures
        pairs_view(pairs@) == form_pairs(body@),
{
    form_urlencoded::parse(body).into_owned().collect()
}

/// Index of the first pair from `from` on whose name is `key`.
pub open spec fn field_from(pairs: Seq<(String, String)>, key: Seq<char>, from: int) -> Option<int>
    decreases pairs.len() - from,
{
    if from < 0 || from >= pairs.len() {
        None
    } else if pairs[from].0@ == key {
        Some(from)
    } else {
        field_from(pairs, key, from + 1)
    }
}

/// Finds the first pair from `from` on whose name is `key`.
pub fn find_field(pairs: &Vec<(String, String)>, key: &str, from: usize) -> (r: Option<usize>)
    ensures
        match r {
            Some(i) => field_from(pairs@, key@, from as int) == Some(i as int) && from <= i
                < pairs.len() && pairs@[i as int].0@ == key@,
            None => field_from(pairs@, key@, from as int) is None,
        },
{
    let wanted = key.to_owned();
    let mut i: usize = from;
    if i >= pairs.len() {
        return None;
    }
    while i < pairs.len()
        invariant
            from <= i <= pairs@.len(),
            wanted@ == key@,
            field_from(pairs@, key@, from as int) == field_from(pairs@, key@, i as int),
        decreases pairs@.len() - i,
    {
        if pairs[i].0 == wanted {
            return Some(i);
        }
        i += 1;
    }
    None
}

} // verus!
