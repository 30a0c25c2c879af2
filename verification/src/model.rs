//! The mathematical model of the editor: what a state is, when it is
//! consistent, and what each intent makes of it.
//!
//! Everything here is ghost code. The executable types elsewhere in the
//! crate are tied to these definitions through their views.

use vstd::prelude::*;

verus! {

/// An editing session: the text being worked on and, when an existing entry
/// is being edited, the position of that entry in the list.
pub struct EditorModel {
    /// `None` while a new entry is being written, `Some(i)` while entry `i`
    /// is being edited.
    pub target: Option<nat>,
    /// The working text. It is independent of the list until submitted.
    pub draft: Seq<char>,
}

/// What the editing pane shows.
pub enum PaneModel {
    /// No editing session is open.
    Welcome,
    /// An editing session is open.
    Editing(EditorModel),
}

/// A user action.
pub enum IntentModel {
    /// Replace the working text by the given one.
    ChangeDraftText(Seq<char>),
    /// Open the editor on a new, empty entry.
    StartCreate,
    /// Open the editor on the entry at the given position.
    StartEdit(nat),
    /// Store the working text in the list and close the editor.
    Submit,
    /// Close the editor and drop the working text.
    Cancel,
    /// Remove the entry at the given position and close the editor.
    Delete(nat),
}

/// The whole application state.
pub struct StateModel {
    /// The entries, in list order.
    pub list: Seq<Seq<char>>,
    /// The editing pane.
    pub pane: PaneModel,
    /// The highlighted position of the list, if any.
    pub selected: Option<nat>,
}

impl PaneModel {
    /// The position that the pane is bound to: the target of the open
    /// editor, and nothing when no editor is open.
    pub open spec fn target(self) -> Option<nat> {
        match self {
            PaneModel::Welcome => None,
            PaneModel::Editing(editor) => editor.target,
        }
    }
}

impl StateModel {
    /// Consistency of selection, pane and list: the highlighted position is
    /// exactly the target of the open editor, and it lies inside the list.
    pub open spec fn wf(self) -> bool {
        &&& self.selected == self.pane.target()
        &&& self.selected matches Some(i) ==> i < self.list.len()
    }

    /// The state with the pane closed and nothing highlighted.
    pub open spec fn cancel(self) -> StateModel {
        StateModel { list: self.list, pane: PaneModel::Welcome, selected: None }
    }

    /// The state with the editor open on a new, empty entry.
    pub open spec fn start_create(self) -> StateModel {
        StateModel {
            list: self.list,
            pane: PaneModel::Editing(EditorModel { target: None, draft: Seq::empty() }),
            selected: None,
        }
    }

    /// The state with the editor open on a copy of entry `index`. A position
    /// outside the list changes nothing.
    pub open spec fn start_edit(self, index: nat) -> StateModel {
        if index < self.list.len() {
            StateModel {
                list: self.list,
                pane: PaneModel::Editing(
                    EditorModel { target: Some(index), draft: self.list[index as int] },
                ),
                selected: Some(index),
            }
        } else {
            self
        }
    }

    /// The state with the working text replaced by `text`. Without an open
    /// editor nothing changes.
    pub open spec fn change_draft_text(self, text: Seq<char>) -> StateModel {
        match self.pane {
            PaneModel::Welcome => self,
            PaneModel::Editing(editor) => StateModel {
                list: self.list,
                pane: PaneModel::Editing(EditorModel { target: editor.target, draft: text }),
                selected: self.selected,
            },
        }
    }

    /// Whether a submit would store anything: an editor is open, its working
    /// text is not empty, and its target, if it has one, lies inside the list.
    pub open spec fn can_submit(self) -> bool {
        &&& self.pane matches PaneModel::Editing(editor)
        &&& editor.draft.len() > 0
        &&& editor.target matches Some(i) ==> i < self.list.len()
    }

    /// The list as a submit leaves it: the working text replaces the target
    /// entry, or is appended when there is no target.
    pub open spec fn submitted_list(self) -> Seq<Seq<char>>
        recommends
            self.can_submit(),
    {
        let editor = self.pane->Editing_0;
        match editor.target {
            Some(i) => self.list.update(i as int, editor.draft),
            None => self.list.push(editor.draft),
        }
    }

    /// The state after a submit: the working text is stored and the pane
    /// closed. Where nothing can be stored the state stays as it is.
    pub open spec fn submit(self) -> StateModel {
        if self.can_submit() {
            StateModel { list: self.submitted_list(), pane: PaneModel::Welcome, selected: None }
        } else {
            self
        }
    }

    /// The state with entry `index` removed and the pane closed, whichever
    /// entry the editor was bound to. Later entries move up by one. A
    /// position outside the list changes nothing.
    pub open spec fn delete(self, index: nat) -> StateModel {
        if index < self.list.len() {
            StateModel {
                list: self.list.remove(index as int),
                pane: PaneModel::Welcome,
                selected: None,
            }
        } else {
            self
        }
    }

    /// The state that follows from `self` when `intent` is applied.
    pub open spec fn step(self, intent: IntentModel) -> StateModel {
        match intent {
            IntentModel::ChangeDraftText(text) => self.change_draft_text(text),
            IntentModel::StartCreate => self.start_create(),
            IntentModel::StartEdit(index) => self.start_edit(index),
            IntentModel::Submit => self.submit(),
            IntentModel::Cancel => self.cancel(),
            IntentModel::Delete(index) => self.delete(index),
        }
    }

    /// The state reached by applying `intents` one after the other.
    pub open spec fn run(self, intents: Seq<IntentModel>) -> StateModel
        decreases intents.len(),
    {
        if intents.len() == 0 {
            self
        } else {
            self.run(intents.drop_last()).step(intents.last())
        }
    }

    /// Whether `intent` opens a fresh editing session on this state.
    pub open spec fn opens_editor(self, intent: IntentModel) -> bool {
        match intent {
            IntentModel::StartCreate => true,
            IntentModel::StartEdit(index) => index < self.list.len(),
            _ => false,
        }
    }

    /// Whether entry `index` is the highlighted one.
    pub open spec fn is_selected(self, index: nat) -> bool {
        self.selected == Some(index)
    }
}

} // verus!
