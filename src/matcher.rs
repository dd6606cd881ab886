//! Finding the entry that a requested name refers to, ignoring case.

use vstd::prelude::*;

use crate::catalog::BootCatalog;
use crate::store::views;

verus! {

/// The lowercase form of `s`, as `str::to_lowercase` gives it.
pub uninterp spec fn lower_of(s: Seq<char>) -> Seq<char>;

/// Relies on `str::to_lowercase`: the lowercase form of a string, which
/// depends on its characters alone.
#[verifier::external_body]
fn lowercase(s: &str) -> (r: String)
    ensures
        r@ == lower_of(s@),
{
    s.to_lowercase()
}

/// The position of the first element of `s` equal to `key`, if any.
pub open spec fn first_index_of(key: Seq<char>, s: Seq<Seq<char>>) -> Option<int> {
    if exists|i: int| 0 <= i < s.len() && s[i] == key {
        Some(
            choose|i: int|
                0 <= i < s.len() && s[i] == key && forall|j: int| 0 <= j < i ==> s[j] != key,
        )
    } else {
        None
    }
}

/// The lowercase forms of `s`, element by element.
pub open spec fn lower_all(s: Seq<Seq<char>>) -> Seq<Seq<char>> {
    s.map_values(|x: Seq<char>| lower_of(x))
}

/// The entry that `target` selects among entries named `names`: none for an
/// empty target, else the first whose name equals it ignoring case.
pub open spec fn matched_entry(target: Seq<char>, names: Seq<Seq<char>>) -> Option<int> {
    if target.len() == 0 {
        None
    } else {
        first_index_of(lower_of(target), lower_all(names))
    }
}

/// Lifts an optional index to `int`.
pub open spec fn as_int(r: Option<usize>) -> Option<int> {
    match r {
        Some(i) => Some(i as int),
        None => None,
    }
}

/// The position of the first of `folded_names` equal to `folded_target`.
/// Both are taken already in lowercase form.
pub fn find_folded(folded_target: &String, folded_names: &Vec<String>) -> (r: Option<usize>)
    ensures
        as_int(r) == first_index_of(folded_target@, views(folded_names@)),
        r matches Some(i) ==> i < folded_names@.len(),
{
    let ghost s = views(folded_names@);
    let mut i: usize = 0;
    while i < folded_names.len()
        invariant
            i <= folded_names@.len(),
            s == views(folded_names@),
            forall|j: int| 0 <= j < i ==> s[j] != folded_target@,
        decreases folded_names@.len() - i,
    {
        if folded_names[i].eq(folded_target) {
            assert(s[i as int] == folded_target@);
            let ghost c = choose|k: int|
                0 <= k < s.len() && s[k] == folded_target@ && forall|j: int|
                    0 <= j < k ==> s[j] != folded_target@;
            assert(c == i as int) by {
                if c < i {
                } else if c > i {
                    assert(s[i as int] != folded_target@);
                }
            }
            return Some(i);
        }
        i = i + 1;
    }
    None
}

/// The entry of `catalog` that `target` names, ignoring case; none for an
/// empty target.
pub fn match_target(target: &str, catalog: &BootCatalog) -> (r: Option<usize>)
    ensures
        as_int(r) == matched_entry(target@, catalog.display_names()),
        target@.len() == 0 ==> r is None,
        r matches Some(i) ==> i < catalog.entries@.len(),
{
    if target.unicode_len() == 0 {
        return None;
    }
    let folded_target = lowercase(target);
    let mut folded: Vec<String> = Vec::new();
    let mut i: usize = 0;
    while i < catalog.entries.len()
        invariant
            i <= catalog.entries@.len(),
            views(folded@) == lower_all(catalog.display_names()).take(i as int),
        decreases catalog.entries@.len() - i,
    {
        let f = lowercase(catalog.entries[i].display_name.as_str());
        let ghost before = folded@;
        folded.push(f);
        assert(catalog.display_names()[i as int] == catalog.entries@[i as int].display_name@);
        assert(views(folded@) =~= views(before).push(f@));
        assert(views(folded@) =~= lower_all(catalog.display_names()).take(i + 1));
        i = i + 1;
    }
    assert(lower_all(catalog.display_names()).take(i as int) =~= lower_all(catalog.display_names()));
    find_folded(&folded_target, &folded)
}

} // verus!
