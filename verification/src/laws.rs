//! What holds of the editor whatever state it is in: the effect of the
//! usual sequences of intents, and the consistency of every reachable state.
//!
//! Each statement is about [`StateModel::step`], the function that the
//! dispatcher's contract is stated with, so it carries over to every call of
//! the dispatcher.

use crate::model::{EditorModel, IntentModel, PaneModel, StateModel};
use vstd::prelude::*;

verus! {

/// Opening the editor on a new entry, typing a non-empty `text` and
/// submitting appends exactly one entry, whose text is `text`. The entries
/// that were there stay, and the pane is closed afterwards.
pub proof fn create_then_submit_appends(state: StateModel, text: Seq<char>)
    requires
        text.len() > 0,
    ensures
        ({
            let after = state.step(IntentModel::StartCreate).step(
                IntentModel::ChangeDraftText(text),
            ).step(IntentModel::Submit);
            &&& after.list.len() == state.list.len() + 1
            &&& after.list.last() == text
            &&& after.list == state.list.push(text)
            &&& after.pane == PaneModel::Welcome
            &&& after.selected is None
        }),
{
}

/// Opening the editor on entry `index`, typing a non-empty `text` and
/// submitting replaces that entry by `text` and touches no other: the list
/// keeps its length, and the pane is closed and nothing highlighted
/// afterwards.
pub proof fn edit_then_submit_replaces(state: StateModel, index: nat, text: Seq<char>)
    requires
        index < state.list.len(),
        text.len() > 0,
    ensures
        ({
            let after = state.step(IntentModel::StartEdit(index)).step(
                IntentModel::ChangeDraftText(text),
            ).step(IntentModel::Submit);
            &&& after.list.len() == state.list.len()
            &&& after.list[index as int] == text
            &&& forall|j: int|
                0 <= j < state.list.len() && j != index ==> after.list[j] == state.list[j]
            &&& after.list == state.list.update(index as int, text)
            &&& after.pane == PaneModel::Welcome
            &&& after.selected is None
        }),
{
}

/// Submitting an empty working text changes nothing: the list keeps its
/// length and its entries, and the editor stays open.
pub proof fn empty_submit_changes_nothing(state: StateModel)
    requires
        state.pane matches PaneModel::Editing(editor) && editor.draft.len() == 0,
    ensures
        state.step(IntentModel::Submit) == state,
        state.step(IntentModel::Submit).list.len() == state.list.len(),
        state.step(IntentModel::Submit).pane is Editing,
{
}

/// A submit never shortens the list and never opens the editor: it leaves
/// the list as long as it was or one longer, and the pane as it was or
/// closed.
pub proof fn submit_keeps_or_stores(state: StateModel)
    ensures
        ({
            let after = state.step(IntentModel::Submit);
            &&& after == state || after.pane == PaneModel::Welcome
            &&& after.list.len() == state.list.len() || after.list.len() == state.list.len() + 1
        }),
{
}

/// Cancelling closes the pane and clears the highlight, from any state, and
/// leaves the list as it was.
pub proof fn cancel_closes_editor(state: StateModel)
    ensures
        state.step(IntentModel::Cancel).pane == PaneModel::Welcome,
        state.step(IntentModel::Cancel).selected is None,
        state.step(IntentModel::Cancel).list == state.list,
{
}

/// Deleting entry `index` shortens the list by one and keeps the other
/// entries in their order: those before `index` stay in place, those after
/// it move up by one. The pane is closed afterwards, whichever entry the
/// editor was bound to.
pub proof fn delete_removes_one(state: StateModel, index: nat)
    requires
        index < state.list.len(),
    ensures
        ({
            let after = state.step(IntentModel::Delete(index));
            &&& after.list.len() == state.list.len() - 1
            &&& forall|j: int| 0 <= j < index ==> after.list[j] == state.list[j]
            &&& forall|j: int| index <= j < after.list.len() ==> after.list[j] == state.list[j + 1]
            &&& after.pane == PaneModel::Welcome
            &&& after.selected is None
        }),
{
}

/// An intent that names a position outside the list is ignored.
pub proof fn stale_index_is_ignored(state: StateModel, index: nat)
    requires
        index >= state.list.len(),
    ensures
        state.step(IntentModel::StartEdit(index)) == state,
        state.step(IntentModel::Delete(index)) == state,
{
}

/// An intent that opens a fresh editing session leaves the list as it was
/// and the pane holding an untouched editor: an empty one for a new entry,
/// or a copy of the entry that the intent names.
pub proof fn opening_intent_leaves_fresh_editor(state: StateModel, intent: IntentModel)
    requires
        state.opens_editor(intent),
    ensures
        state.step(intent).list == state.list,
        match intent {
            IntentModel::StartEdit(index) => state.step(intent).pane == PaneModel::Editing(
                EditorModel { target: Some(index), draft: state.list[index as int] },
            ),
            _ => state.step(intent).pane == PaneModel::Editing(
                EditorModel { target: None, draft: Seq::empty() },
            ),
        },
{
}

/// Every intent keeps a consistent state consistent.
pub proof fn step_preserves_wf(state: StateModel, intent: IntentModel)
    requires
        state.wf(),
    ensures
        state.step(intent).wf(),
{
}

/// Every state reached from a consistent one, by whatever intents, is
/// consistent.
pub proof fn run_preserves_wf(state: StateModel, intents: Seq<IntentModel>)
    requires
        state.wf(),
    ensures
        state.run(intents).wf(),
    decreases intents.len(),
{
    if intents.len() > 0 {
        run_preserves_wf(state, intents.drop_last());
        step_preserves_wf(state.run(intents.drop_last()), intents.last());
    }
}

/// In a consistent state the editor's target always names an entry of the
/// list, so a submit stores whenever the working text is not empty.
pub proof fn submit_stores_nonempty_draft(state: StateModel)
    requires
        state.wf(),
        state.pane matches PaneModel::Editing(editor) && editor.draft.len() > 0,
    ensures
        state.can_submit(),
        state.step(IntentModel::Submit).pane == PaneModel::Welcome,
        state.step(IntentModel::Submit).selected is None,
        state.step(IntentModel::Submit).list == state.submitted_list(),
{
}

} // verus!
