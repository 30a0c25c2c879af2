//! The application state and the dispatcher that applies intents to it.

use crate::editor::{target_model, Editor, RightPane};
use crate::intent::Intent;
use crate::item::TodoItem;
use crate::model::{PaneModel, StateModel};
use vstd::prelude::*;

verus! {

/// The texts of a sequence of entries, in the same order.
pub open spec fn texts(items: Seq<TodoItem>) -> Seq<Seq<char>> {
    Seq::new(items.len(), |i: int| items[i]@)
}

/// The top-level state: the ordered list of entries, the editing pane, and
/// the highlighted position of the list.
///
/// The state changes only through the intents applied to it, and every
/// intent keeps it consistent: see [`StateModel::wf`].
#[derive(Debug, PartialEq, Eq)]
pub struct AppState {
    list: Vec<TodoItem>,
    pane: RightPane,
    selected_index: Option<usize>,
}

impl View for AppState {
    type V = StateModel;

    closed spec fn view(&self) -> StateModel {
        StateModel {
            list: texts(self.list@),
            pane: self.pane@,
            selected: target_model(self.selected_index),
        }
    }
}

impl AppState {
    /// The state that holds `items`, with the pane closed and nothing
    /// highlighted.
    pub fn with_items(items: Vec<TodoItem>) -> (state: AppState)
        ensures
            state@ == (StateModel {
                list: texts(items@),
                pane: PaneModel::Welcome,
                selected: None,
            }),
            state@.wf(),
    {
        AppState { list: items, pane: RightPane::Welcome, selected_index: None }
    }

    /// The state that a session starts with: two sample entries, the pane
    /// closed, nothing highlighted.
    pub fn new() -> (state: AppState)
        ensures
            state@ == (StateModel {
                list: seq!["hello world"@, "hello iced2"@],
                pane: PaneModel::Welcome,
                selected: None,
            }),
            state@.wf(),
    {
        let mut list: Vec<TodoItem> = Vec::new();
        list.push(TodoItem::from("hello world".to_owned()));
        list.push(TodoItem::from("hello iced2".to_owned()));
        assert(texts(list@) =~= seq!["hello world"@, "hello iced2"@]);
        AppState::with_items(list)
    }

    /// The entries, in list order.
    pub fn list(&self) -> (list: &Vec<TodoItem>)
        ensures
            texts(list@) == self@.list,
    {
        &self.list
    }

    /// The number of entries.
    pub fn len(&self) -> (len: usize)
        ensures
            len == self@.list.len(),
    {
        self.list.len()
    }

    /// The editing pane.
    pub fn pane(&self) -> (pane: &RightPane)
        ensures
            pane@ == self@.pane,
    {
        &self.pane
    }

    /// The highlighted position of the list, if any.
    pub fn selected_index(&self) -> (selected: Option<usize>)
        ensures
            target_model(selected) == self@.selected,
    {
        self.selected_index
    }

    /// Whether entry `index` is the highlighted one.
    pub fn is_selected(&self, index: usize) -> (selected: bool)
        ensures
            selected == self@.is_selected(index as nat),
    {
        match self.selected_index {
            Some(i) => i == index,
            None => false,
        }
    }

    /// Whether applying `intent` to this state opens a fresh editing
    /// session, so that the text field should take the focus.
    pub fn opens_editor(&self, intent: &Intent) -> (opens: bool)
        ensures
            opens == self@.opens_editor(intent@),
    {
        match intent {
            Intent::StartCreate => true,
            Intent::StartEdit(index) => *index < self.list.len(),
            _ => false,
        }
    }

    /// Closes the pane and clears the highlight. The list stays.
    pub fn cancel(&mut self)
        ensures
            final(self)@ == old(self)@.cancel(),
            old(self)@.wf() ==> final(self)@.wf(),
    {
        self.pane = RightPane::Welcome;
        self.selected_index = None;
    }

    /// Opens the editor on a new, empty entry and clears the highlight.
    pub fn start_create(&mut self)
        ensures
            final(self)@ == old(self)@.start_create(),
            old(self)@.wf() ==> final(self)@.wf(),
    {
        self.pane = RightPane::Editing(Editor::new());
        self.selected_index = None;
    }

    /// Opens the editor on a copy of entry `index` and highlights it. A
    /// position outside the list is ignored.
    pub fn start_edit(&mut self, index: usize)
        ensures
            final(self)@ == old(self)@.start_edit(index as nat),
            old(self)@.wf() ==> final(self)@.wf(),
    {
        if index < self.list.len() {
            let editor = Editor::from(&self.list[index], index);
            self.pane = RightPane::Editing(editor);
            self.selected_index = Some(index);
        }
    }

    /// Replaces the working text of the open editor by `text`. Without an
    /// open editor the text is dropped.
    pub fn change_draft_text(&mut self, text: String)
        ensures
            final(self)@ == old(self)@.change_draft_text(text@),
            old(self)@.wf() ==> final(self)@.wf(),
    {
        match &mut self.pane {
            RightPane::Editing(editor) => {
                editor.set_draft(text);
            },
            RightPane::Welcome => {},
        }
    }

    /// Whether a submit would store the working text: an editor is open, its
    /// text is not empty, and its target, if any, lies inside the list.
    pub fn can_submit(&self) -> (ready: bool)
        ensures
            ready == self@.can_submit(),
    {
        match &self.pane {
            RightPane::Editing(editor) => {
                !editor.draft().is_empty() && match editor.target() {
                    Some(index) => index < self.list.len(),
                    None => true,
                }
            },
            RightPane::Welcome => false,
        }
    }

    /// Stores the working text and closes the pane: the text replaces the
    /// entry being edited, or is appended as a new last entry. An empty
    /// working text is not stored and leaves the editor open; so does a
    /// target outside the list.
    pub fn submit(&mut self)
        ensures
            final(self)@ == old(self)@.submit(),
            old(self)@.wf() ==> final(self)@.wf(),
    {
        if self.can_submit() {
            let mut pane = RightPane::Welcome;
            core::mem::swap(&mut self.pane, &mut pane);
            if let RightPane::Editing(editor) = pane {
                let (target, draft) = editor.into_parts();
                match target {
                    Some(index) => {
                        self.list.set(index, draft);
                        assert(texts(self.list@) =~= old(self)@.submitted_list());
                    },
                    None => {
                        self.list.push(draft);
                        assert(texts(self.list@) =~= old(self)@.submitted_list());
                    },
                }
            }
            self.selected_index = None;
        }
    }

    /// Removes entry `index`, moving the later entries up by one, and closes
    /// the pane whichever entry the editor was bound to. A position outside
    /// the list is ignored.
    pub fn delete(&mut self, index: usize)
        ensures
            final(self)@ == old(self)@.delete(index as nat),
            old(self)@.wf() ==> final(self)@.wf(),
    {
        if index < self.list.len() {
            self.list.remove(index);
            assert(texts(self.list@) =~= old(self)@.list.remove(index as int));
            self.pane = RightPane::Welcome;
            self.selected_index = None;
        }
    }

    /// Applies `intent` to the state in place.
    pub fn update(&mut self, intent: Intent)
        ensures
            final(self)@ == old(self)@.step(intent@),
            old(self)@.wf() ==> final(self)@.wf(),
    {
        match intent {
            Intent::ChangeDraftText(text) => self.change_draft_text(text),
            Intent::StartCreate => self.start_create(),
            Intent::StartEdit(index) => self.start_edit(index),
            Intent::Submit => self.submit(),
            Intent::Cancel => self.cancel(),
            Intent::Delete(index) => self.delete(index),
        }
    }

    /// The state that follows from this one when `intent` is applied.
    pub fn apply(self, intent: Intent) -> (next: AppState)
        ensures
            next@ == self@.step(intent@),
            self@.wf() ==> next@.wf(),
    {
        let mut next = self;
        next.update(intent);
        next
    }
}

impl Default for AppState {
    /// The empty state: no entries, the pane closed, nothing highlighted.
    fn default() -> (state: AppState)
        ensures
            state@ == (StateModel {
                list: Seq::empty(),
                pane: PaneModel::Welcome,
                selected: None,
            }),
            state@.wf(),
    {
        let state = AppState::with_items(Vec::new());
        assert(state@.list =~= Seq::empty());
        state
    }
}

} // verus!
