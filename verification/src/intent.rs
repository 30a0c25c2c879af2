//! The user actions that drive the editor.

use crate::model::IntentModel;
use vstd::prelude::*;

verus! {

/// A user action, as the view layer reports it. One intent is applied in
/// full before the next is accepted.
#[derive(Debug, PartialEq, Eq)]
pub enum Intent {
    /// The text field now holds the given text.
    ChangeDraftText(String),
    /// Open the editor on a new, empty entry.
    StartCreate,
    /// Open the editor on the entry at the given position.
    StartEdit(usize),
    /// Store the working text in the list and close the editor.
    Submit,
    /// Close the editor and drop the working text.
    Cancel,
    /// Remove the entry at the given position and close the editor.
    Delete(usize),
}

impl View for Intent {
    type V = IntentModel;

    open spec fn view(&self) -> IntentModel {
        match self {
            Intent::ChangeDraftText(text) => IntentModel::ChangeDraftText(text@),
            Intent::StartCreate => IntentModel::StartCreate,
            Intent::StartEdit(index) => IntentModel::StartEdit(*index as nat),
            Intent::Submit => IntentModel::Submit,
            Intent::Cancel => IntentModel::Cancel,
            Intent::Delete(index) => IntentModel::Delete(*index as nat),
        }
    }
}

impl Clone for Intent {
    /// An independent copy of the same action.
    fn clone(&self) -> (copy: Intent)
        ensures
            copy@ == self@,
    {
        match self {
            Intent::ChangeDraftText(text) => Intent::ChangeDraftText(text.clone()),
            Intent::StartCreate => Intent::StartCreate,
            Intent::StartEdit(index) => Intent::StartEdit(*index),
            Intent::Submit => Intent::Submit,
            Intent::Cancel => Intent::Cancel,
            Intent::Delete(index) => Intent::Delete(*index),
        }
    }
}

} // verus!
