//! Texts as contracts see them: sequences of characters.

use vstd::prelude::*;

verus! {

/// The characters of an optional text.
pub open spec fn text_of(text: Option<String>) -> Option<Seq<char>> {
    match text {
        Some(t) => Some(t@),
        None => None,
    }
}

/// The texts of a list of strings, in order.
pub open spec fn texts_of(list: Seq<String>) -> Seq<Seq<char>> {
    list.map_values(|s: String| s@)
}

/// The texts of a list of string slices, in order.
pub open spec fn slices_of(list: Seq<&str>) -> Seq<Seq<char>> {
    list.map_values(|s: &str| s@)
}

/// A copy of an optional text.
pub(crate) fn copy_text(text: &Option<String>) -> (r: Option<String>)
    ensures
        text_of(r) == text_of(*text),
{
    match text {
        Some(t) => Some(t.clone()),
        None => None,
    }
}

/// Whether `list` holds the text of `id`.
pub(crate) fn strings_hold(list: &Vec<String>, id: &str) -> (r: bool)
    ensures
        r == texts_of(list@).contains(id@),
{
    let wanted: String = id.to_owned();
    let mut j: usize = 0;
    while j < list.len()
        invariant
            j <= list.len(),
            wanted@ == id@,
            forall|k: int| 0 <= k < j ==> texts_of(list@)[k] != id@,
        decreases list.len() - j,
    {
        if list[j] == wanted {
            assert(texts_of(list@)[j as int] == id@);
            return true;
        }
        j += 1;
    }
    false
}

/// Whether `list` holds the text of `id`.
pub(crate) fn slices_hold(list: &[&str], id: &String) -> (r: bool)
    ensures
        r == slices_of(list@).contains(id@),
{
    let mut j: usize = 0;
    while j < list.len()
        invariant
            j <= list.len(),
            forall|k: int| 0 <= k < j ==> slices_of(list@)[k] != id@,
        decreases list.len() - j,
    {
        if list[j].to_owned() == *id {
            assert(slices_of(list@)[j as int] == id@);
            return true;
        }
        j += 1;
    }
    false
}

} // verus!
