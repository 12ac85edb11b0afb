//! Text comparison and lookup in lists of named values.

use vstd::prelude::*;
use vstd::slice::*;
use vstd::string::*;

verus! {

/// A list of names with their values, as text.
pub type Pairs = Seq<(Seq<char>, Seq<char>)>;

/// The text of the pairs of an executable list.
pub open spec fn pairs_view(pairs: Seq<(String, String)>) -> Pairs {
    pairs.map_values(|pair: (String, String)| (pair.0@, pair.1@))
}

/// The text of an optional string slice.
pub open spec fn text_view(value: Option<&str>) -> Option<Seq<char>> {
    match value {
        Some(text) => Some(text@),
        None => None,
    }
}

/// The value that `pairs` gives to `name`: that of the last pair with this name, if there
/// is one.
pub open spec fn lookup(pairs: Pairs, name: Seq<char>) -> Option<Seq<char>>
    decreases pairs.len(),
{
    if pairs.len() == 0 {
        None
    } else if pairs.last().0 == name {
        Some(pairs.last().1)
    } else {
        lookup(pairs.drop_last(), name)
    }
}

/// Whether two string slices hold the same text.
pub fn same_text(a: &str, b: &str) -> (same: bool)
    ensures
        same == (a@ == b@),
{
    let left = a.as_bytes();
    let right = b.as_bytes();
    proof {
        vstd::utf8::encode_utf8_decode_utf8(a@);
        vstd::utf8::encode_utf8_decode_utf8(b@);
    }
    if left.len() != right.len() {
        return false;
    }
    let mut i: usize = 0;
    while i < left.len()
        invariant
            i <= left.len(),
            left.len() == right.len(),
            left@ == a.spec_bytes(),
            right@ == b.spec_bytes(),
            forall|k: int| 0 <= k < i ==> left@[k] == right@[k],
        decreases left.len() - i,
    {
        if left[i] != right[i] {
            return false;
        }
        i += 1;
    }
    assert(left@ =~= right@);
    true
}

/// Looks `name` up in `pairs`: the value of the last pair that has this name.
pub fn find<'a>(pairs: &'a Vec<(String, String)>, name: &str) -> (found: Option<&'a str>)
    ensures
        text_view(found) == lookup(pairs_view(pairs@), name@),
{
    let ghost all = pairs_view(pairs@);
    let mut i: usize = pairs.len();
    assert(all.take(i as int) =~= all);
    while i > 0
        invariant
            i <= pairs.len(),
            all == pairs_view(pairs@),
            lookup(all, name@) == lookup(all.take(i as int), name@),
        decreases i,
    {
        assert(all.take(i as int).drop_last() =~= all.take(i - 1));
        i -= 1;
        if same_text(pairs[i].0.as_str(), name) {
            return Some(pairs[i].1.as_str());
        }
    }
    None
}

} // verus!
