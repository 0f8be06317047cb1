//! Small string helpers shared by the rest of the library.

use vstd::prelude::*;
use vstd::string::StrSliceExecFns;

verus! {

/// Relies on `str`'s `PartialEq`: two string slices compare equal exactly
/// when they hold the same characters.
#[verifier::external_body]
pub(crate) fn str_eq(a: &str, b: &str) -> (r: bool)
    ensures
        r == (a@ == b@),
{
    a == b
}

/// Whether one of the identities in `ids` is `id`.
pub fn contains_id(ids: &Vec<String>, id: &str) -> (r: bool)
    ensures
        r == ids.deep_view().contains(id@),
{
    let mut i: usize = 0;
    while i < ids.len()
        invariant
            0 <= i <= ids@.len(),
            forall|j: int| 0 <= j < i ==> ids.deep_view()[j] != id@,
        decreases ids@.len() - i,
    {
        if str_eq(ids[i].as_str(), id) {
            assert(ids.deep_view()[i as int] == id@);
            return true;
        }
        i += 1;
    }
    false
}

/// The first `n` characters of `s`, or all of `s` when it is shorter.
pub fn truncate_chars(s: &str, n: usize) -> (r: String)
    ensures
        r@ == s@.take(if n <= s@.len() { n as int } else { s@.len() as int }),
{
    let len = s.unicode_len();
    let to = if n <= len { n } else { len };
    let cut = s.substring_char(0, to);
    assert(cut@ =~= s@.take(to as int));
    cut.to_owned()
}

} // verus!
