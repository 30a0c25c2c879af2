//! The editing session and the pane that holds it.

use crate::intent::Intent;
use crate::item::TodoItem;
use crate::model::{EditorModel, IntentModel, PaneModel};
use vstd::prelude::*;

verus! {

/// An editing session: a working copy of an entry and, when an existing
/// entry is being edited, the position of that entry in the list.
///
/// The working copy shares no storage with the list. The list changes only
/// when the session is submitted.
#[derive(Debug, PartialEq, Eq)]
pub struct Editor {
    target: Option<usize>,
    draft: TodoItem,
}

/// The target position of a session as a mathematical value.
pub open spec fn target_model(target: Option<usize>) -> Option<nat> {
    match target {
        Some(index) => Some(index as nat),
        None => None,
    }
}

impl View for Editor {
    type V = EditorModel;

    closed spec fn view(&self) -> EditorModel {
        EditorModel { target: target_model(self.target), draft: self.draft@ }
    }
}

impl Editor {
    /// A session that writes a new entry: no target, empty working text.
    pub fn new() -> (editor: Editor)
        ensures
            editor@ == (EditorModel { target: None, draft: Seq::empty() }),
    {
        Editor { target: None, draft: TodoItem::default() }
    }

    /// A session that edits the entry at `index`, working on a copy of `item`.
    pub fn from(item: &TodoItem, index: usize) -> (editor: Editor)
        ensures
            editor@ == (EditorModel { target: Some(index as nat), draft: item@ }),
    {
        Editor { target: Some(index), draft: item.clone() }
    }

    /// The position of the entry being edited, or `None` for a new entry.
    pub fn target(&self) -> (target: Option<usize>)
        ensures
            target_model(target) == self@.target,
    {
        self.target
    }

    /// The working copy.
    pub fn draft(&self) -> (draft: &TodoItem)
        ensures
            draft@ == self@.draft,
    {
        &self.draft
    }

    /// Replaces the working text by `text`. The target stays.
    pub fn set_draft(&mut self, text: String)
        ensures
            final(self)@ == (EditorModel { target: old(self)@.target, draft: text@ }),
    {
        self.draft = TodoItem::from(text);
    }

    /// Ends the session and hands out its target and its working copy.
    pub fn into_parts(self) -> (parts: (Option<usize>, TodoItem))
        ensures
            target_model(parts.0) == self@.target,
            parts.1@ == self@.draft,
    {
        (self.target, self.draft)
    }

    /// The intent that removes the entry being edited. A session that
    /// writes a new entry has nothing to remove and offers none.
    pub fn delete_intent(&self) -> (intent: Option<Intent>)
        ensures
            match self@.target {
                Some(index) => intent matches Some(i) && i@ == IntentModel::Delete(index),
                None => intent is None,
            },
    {
        match self.target {
            Some(index) => Some(Intent::Delete(index)),
            None => None,
        }
    }
}

impl Default for Editor {
    /// The session that writes a new entry.
    fn default() -> (editor: Editor)
        ensures
            editor@ == (EditorModel { target: None, draft: Seq::empty() }),
    {
        Editor::new()
    }
}

/// What the editing pane shows: a welcome page, or an open editor.
#[derive(Debug, PartialEq, Eq)]
pub enum RightPane {
    /// No editing session is open.
    Welcome,
    /// An editing session is open.
    Editing(Editor),
}

impl View for RightPane {
    type V = PaneModel;

    open spec fn view(&self) -> PaneModel {
        match self {
            RightPane::Welcome => PaneModel::Welcome,
            RightPane::Editing(editor) => PaneModel::Editing(editor@),
        }
    }
}

impl Default for RightPane {
    /// The welcome page.
    fn default() -> (pane: RightPane)
        ensures
            pane == RightPane::Welcome,
    {
        RightPane::Welcome
    }
}

} // verus!
