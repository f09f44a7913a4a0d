//! Helpers for speaking about strings by their text.

use vstd::prelude::*;

verus! {

/// The text of an optional string.
pub open spec fn opt_text(value: Option<String>) -> Option<Seq<char>> {
    match value {
        Some(text) => Some(text@),
        None => None,
    }
}

/// The text of each string of `items`, in order.
pub open spec fn texts(items: Seq<String>) -> Seq<Seq<char>> {
    Seq::new(items.len(), |i: int| items[i]@)
}

/// Whether `text` holds the character that ends a C string.
pub open spec fn has_nul(text: Seq<char>) -> bool {
    text.contains('\0')
}

/// Whether `text` holds a NUL character, and so cannot be handed over as
/// null-terminated text.
pub fn contains_nul(text: &str) -> (found: bool)
    ensures
        found == has_nul(text@),
{
    broadcast use vstd::string::group_string_axioms;

    let mut found = false;
    for c in it: text.chars()
        invariant
            it.seq() == text@,
            found == exists|j: int| 0 <= j < it.index() && text@[j] == '\0',
    {
        if c == '\0' {
            found = true;
        }
    }
    found
}

} // verus!
