//! Small verified string utilities: character-wise equality, list joining,
//! and rendering of the 1-to-5 ordinal ratings.

use vstd::prelude::*;
use vstd::string::StrSliceExecFns;
use vstd::string::StringExecFns;

verus! {

/// The view of `parts` joined with `sep` between consecutive elements.
pub open spec fn spec_join(parts: Seq<Seq<char>>, sep: Seq<char>) -> Seq<char>
    decreases parts.len(),
{
    if parts.len() == 0 {
        Seq::empty()
    } else if parts.len() == 1 {
        parts[0]
    } else {
        spec_join(parts.drop_last(), sep) + sep + parts.last()
    }
}

/// Character-wise equality of two string slices.
pub fn str_eq(a: &str, b: &str) -> (r: bool)
    ensures
        r == (a@ == b@),
{
    let a_len = a.unicode_len();
    let b_len = b.unicode_len();
    if a_len != b_len {
        return false;
    }
    let mut i: usize = 0;
    while i < a_len
        invariant
            a_len == a@.len(),
            a_len == b@.len(),
            i <= a_len,
            forall|j: int| 0 <= j < i ==> a@[j] == b@[j],
        decreases a_len - i,
    {
        if a.get_char(i) != b.get_char(i) {
            return false;
        }
        i = i + 1;
    }
    proof {
        assert(a@ =~= b@);
    }
    true
}

/// Concatenates the strings of `parts`, separated by `sep`.
pub fn join_strings(parts: &Vec<String>, sep: &str) -> (joined: String)
    ensures
        joined@ == spec_join(parts.deep_view(), sep@),
{
    let mut joined = String::new();
    let mut i: usize = 0;
    while i < parts.len()
        invariant
            i <= parts.len(),
            parts.deep_view().len() == parts@.len(),
            joined@ == spec_join(parts.deep_view().take(i as int), sep@),
        decreases parts.len() - i,
    {
        if i > 0 {
            joined.append(sep);
        }
        joined.append(parts[i].as_str());
        proof {
            assert(parts.deep_view().take(i + 1 as int).drop_last() =~= parts.deep_view().take(
                i as int,
            ));
            assert(parts.deep_view().take(i + 1 as int).last() == parts.deep_view()[i as int]);
        }
        i = i + 1;
    }
    proof {
        assert(parts.deep_view().take(parts@.len() as int) =~= parts.deep_view());
    }
    joined
}

/// The text of an ordinal rating; ratings sit on a fixed 1-to-5 scale.
pub open spec fn spec_rating_text(rating: u8) -> Seq<char> {
    if rating == 1 {
        "1"@
    } else if rating == 2 {
        "2"@
    } else if rating == 3 {
        "3"@
    } else if rating == 4 {
        "4"@
    } else {
        "5"@
    }
}

/// Renders an ordinal rating from the 1-to-5 scale as text.
pub fn rating_text(rating: u8) -> (text: &'static str)
    ensures
        text@ == spec_rating_text(rating),
{
    if rating == 1 {
        "1"
    } else if rating == 2 {
        "2"
    } else if rating == 3 {
        "3"
    } else if rating == 4 {
        "4"
    } else {
        "5"
    }
}

} // verus!
