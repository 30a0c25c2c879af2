//! The stored entries of the list.

use vstd::prelude::*;

verus! {

/// One entry of the list: a piece of text.
///
/// An entry is never edited in place. The editor works on a copy and the
/// list swaps the whole entry when the copy is submitted.
#[derive(Debug, PartialEq, Eq)]
pub struct TodoItem {
    value: String,
}

impl View for TodoItem {
    type V = Seq<char>;

    /// The text of the entry, as a sequence of characters.
    closed spec fn view(&self) -> Seq<char> {
        self.value@
    }
}

impl TodoItem {
    /// Wraps `value` as an entry. Any text is accepted, the empty one too.
    pub fn from(value: String) -> (item: TodoItem)
        ensures
            item@ == value@,
    {
        TodoItem { value }
    }

    /// The text of the entry.
    pub fn value(&self) -> (text: &str)
        ensures
            text@ == self@,
    {
        self.value.as_str()
    }

    /// Whether the entry holds no text at all.
    pub fn is_empty(&self) -> (empty: bool)
        ensures
            empty == (self@.len() == 0),
    {
        self.value.as_str().is_empty()
    }
}

impl Clone for TodoItem {
    /// An independent copy with the same text.
    fn clone(&self) -> (copy: TodoItem)
        ensures
            copy@ == self@,
    {
        TodoItem { value: self.value.clone() }
    }
}

impl Default for TodoItem {
    /// The entry with no text.
    fn default() -> (item: TodoItem)
        ensures
            item@ == Seq::<char>::empty(),
    {
        TodoItem { value: String::new() }
    }
}

} // verus!
