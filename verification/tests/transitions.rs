use todo_list::{AppState, Editor, Intent, RightPane, TodoItem};

fn values(state: &AppState) -> Vec<String> {
    state.list().iter().map(|item| item.value().to_string()).collect()
}

fn listing(items: &[&str]) -> AppState {
    AppState::with_items(items.iter().map(|v| TodoItem::from(v.to_string())).collect())
}

/// Selection, pane and list agree: the highlight is the editor's target and
/// lies inside the list.
fn consistent(state: &AppState) -> bool {
    let target = match state.pane() {
        RightPane::Editing(editor) => editor.target(),
        RightPane::Welcome => None,
    };
    state.selected_index() == target
        && state.selected_index().map_or(true, |i| i < state.len())
}

#[test]
fn new_state_holds_two_samples() {
    let state = AppState::new();
    assert_eq!(values(&state), vec!["hello world", "hello iced2"]);
    assert_eq!(state.len(), 2);
    assert_eq!(state.pane(), &RightPane::Welcome);
    assert_eq!(state.selected_index(), None);
    assert!(consistent(&state));
}

#[test]
fn default_state_is_empty() {
    let state = AppState::default();
    assert!(state.list().is_empty());
    assert_eq!(state.len(), 0);
    assert_eq!(state.pane(), &RightPane::Welcome);
    assert_eq!(state.selected_index(), None);
}

#[test]
fn with_items_keeps_order_and_empty_texts() {
    let state = listing(&["b", "", "a"]);
    assert_eq!(values(&state), vec!["b", "", "a"]);
    assert_eq!(state.pane(), &RightPane::Welcome);
    assert_eq!(state.selected_index(), None);
}

#[test]
fn start_create_opens_empty_editor() {
    let mut state = listing(&["a", "b"]);
    state.update(Intent::StartEdit(0));
    state.update(Intent::StartCreate);
    match state.pane() {
        RightPane::Editing(editor) => {
            assert_eq!(editor.target(), None);
            assert_eq!(editor.draft().value(), "");
        }
        RightPane::Welcome => panic!("the editor should be open"),
    }
    assert_eq!(state.selected_index(), None);
    assert_eq!(values(&state), vec!["a", "b"]);
}

#[test]
fn start_edit_copies_entry_and_selects_it() {
    let mut state = listing(&["a", "b", "c"]);
    state.update(Intent::StartEdit(2));
    assert_eq!(state.pane(), &RightPane::Editing(Editor::from(&TodoItem::from("c".to_string()), 2)));
    assert_eq!(state.selected_index(), Some(2));
    assert!(state.is_selected(2));
    assert!(!state.is_selected(0));
    assert!(!state.is_selected(1));
    assert!(!state.is_selected(3));
}

#[test]
fn start_edit_outside_list_is_ignored() {
    let mut state = listing(&["a", "b"]);
    state.update(Intent::StartEdit(2));
    assert_eq!(state, listing(&["a", "b"]));

    state.update(Intent::StartEdit(0));
    state.update(Intent::ChangeDraftText("draft".to_string()));
    state.update(Intent::StartEdit(usize::MAX));
    let mut open = Editor::from(&TodoItem::from("a".to_string()), 0);
    open.set_draft("draft".to_string());
    assert_eq!(state.pane(), &RightPane::Editing(open));
    assert_eq!(state.selected_index(), Some(0));
    assert_eq!(values(&state), vec!["a", "b"]);
}

#[test]
fn start_edit_on_empty_list_is_ignored() {
    let mut state = AppState::default();
    state.update(Intent::StartEdit(0));
    assert_eq!(state, AppState::default());
}

#[test]
fn change_text_without_editor_is_ignored() {
    let mut state = listing(&["a"]);
    state.update(Intent::ChangeDraftText("x".to_string()));
    assert_eq!(state, listing(&["a"]));
}

#[test]
fn change_text_keeps_target_and_list() {
    let mut state = listing(&["a", "b"]);
    state.update(Intent::StartEdit(1));
    state.update(Intent::ChangeDraftText("bb".to_string()));
    match state.pane() {
        RightPane::Editing(editor) => {
            assert_eq!(editor.target(), Some(1));
            assert_eq!(editor.draft().value(), "bb");
        }
        RightPane::Welcome => panic!("the editor should be open"),
    }
    assert_eq!(state.selected_index(), Some(1));
    assert_eq!(values(&state), vec!["a", "b"]);
}

#[test]
fn create_appends_at_the_end() {
    let mut state = listing(&["a", "b"]);
    state.update(Intent::StartCreate);
    state.update(Intent::ChangeDraftText("c".to_string()));
    state.update(Intent::Submit);
    assert_eq!(state.len(), 3);
    assert_eq!(state.list()[2].value(), "c");
    assert_eq!(values(&state), vec!["a", "b", "c"]);
    assert_eq!(state.pane(), &RightPane::Welcome);
    assert_eq!(state.selected_index(), None);
}

#[test]
fn create_on_empty_list() {
    let mut state = AppState::default();
    state.update(Intent::StartCreate);
    state.update(Intent::ChangeDraftText("first".to_string()));
    state.update(Intent::Submit);
    assert_eq!(values(&state), vec!["first"]);
}

#[test]
fn edit_replaces_only_its_entry() {
    let mut state = listing(&["a", "b", "c"]);
    state.update(Intent::StartEdit(1));
    state.update(Intent::ChangeDraftText("B".to_string()));
    state.update(Intent::Submit);
    assert_eq!(state.len(), 3);
    assert_eq!(values(&state), vec!["a", "B", "c"]);
    assert_eq!(state.pane(), &RightPane::Welcome);
    assert_eq!(state.selected_index(), None);
}

#[test]
fn submit_of_unchanged_copy_keeps_list() {
    let mut state = listing(&["a", "b"]);
    state.update(Intent::StartEdit(0));
    state.update(Intent::Submit);
    assert_eq!(state, listing(&["a", "b"]));
}

#[test]
fn empty_submit_keeps_editor_open() {
    let mut state = listing(&["a", "b"]);
    state.update(Intent::StartEdit(1));
    state.update(Intent::ChangeDraftText(String::new()));
    assert!(!state.can_submit());
    state.update(Intent::Submit);
    assert_eq!(values(&state), vec!["a", "b"]);
    match state.pane() {
        RightPane::Editing(editor) => {
            assert_eq!(editor.target(), Some(1));
            assert_eq!(editor.draft().value(), "");
        }
        RightPane::Welcome => panic!("the editor should stay open"),
    }
    assert_eq!(state.selected_index(), Some(1));
}

#[test]
fn submit_without_editor_is_ignored() {
    let mut state = listing(&["a"]);
    assert!(!state.can_submit());
    state.update(Intent::Submit);
    assert_eq!(state, listing(&["a"]));
}

#[test]
fn can_submit_needs_text() {
    let mut state = listing(&["a"]);
    state.update(Intent::StartCreate);
    assert!(!state.can_submit());
    state.update(Intent::ChangeDraftText(" ".to_string()));
    assert!(state.can_submit());
    state.update(Intent::StartEdit(0));
    assert!(state.can_submit());
}

#[test]
fn cancel_closes_and_keeps_list() {
    let mut state = listing(&["a", "b"]);
    state.update(Intent::StartEdit(1));
    state.update(Intent::ChangeDraftText("zzz".to_string()));
    state.update(Intent::Cancel);
    assert_eq!(state, listing(&["a", "b"]));

    state.update(Intent::StartCreate);
    state.update(Intent::ChangeDraftText("zzz".to_string()));
    state.update(Intent::Cancel);
    assert_eq!(state, listing(&["a", "b"]));

    state.update(Intent::Cancel);
    assert_eq!(state, listing(&["a", "b"]));
}

#[test]
fn delete_keeps_order_of_the_rest() {
    let mut state = listing(&["a", "b", "c", "d"]);
    state.update(Intent::Delete(1));
    assert_eq!(values(&state), vec!["a", "c", "d"]);
    state.update(Intent::Delete(2));
    assert_eq!(values(&state), vec!["a", "c"]);
    state.update(Intent::Delete(0));
    assert_eq!(values(&state), vec!["c"]);
    state.update(Intent::Delete(0));
    assert_eq!(state, AppState::default());
}

#[test]
fn delete_of_edited_entry_closes_editor() {
    let mut state = listing(&["a", "b"]);
    state.update(Intent::StartEdit(1));
    state.update(Intent::Delete(1));
    assert_eq!(state, listing(&["a"]));
}

#[test]
fn delete_closes_create_editor() {
    let mut state = listing(&["a", "b"]);
    state.update(Intent::StartCreate);
    state.update(Intent::ChangeDraftText("c".to_string()));
    state.update(Intent::Delete(0));
    assert_eq!(state, listing(&["b"]));
}

#[test]
fn delete_outside_list_is_ignored() {
    let mut state = listing(&["a", "b"]);
    state.update(Intent::StartEdit(1));
    state.update(Intent::Delete(2));
    assert_eq!(values(&state), vec!["a", "b"]);
    assert!(matches!(state.pane(), RightPane::Editing(_)));
    assert_eq!(state.selected_index(), Some(1));

    let mut empty = AppState::default();
    empty.update(Intent::Delete(0));
    assert_eq!(empty, AppState::default());
}

#[test]
fn apply_agrees_with_update() {
    let intents = vec![
        Intent::StartEdit(1),
        Intent::ChangeDraftText("x".to_string()),
        Intent::Submit,
        Intent::StartCreate,
        Intent::ChangeDraftText("y".to_string()),
        Intent::Submit,
        Intent::Delete(0),
        Intent::StartEdit(0),
        Intent::Cancel,
    ];
    let mut updated = AppState::new();
    let mut applied = AppState::new();
    for intent in intents {
        updated.update(intent.clone());
        applied = applied.apply(intent);
        assert_eq!(updated, applied);
    }
    assert_eq!(values(&applied), vec!["x", "y"]);
}

#[test]
fn every_step_keeps_the_state_consistent() {
    let intents = vec![
        Intent::StartEdit(1),
        Intent::StartEdit(7),
        Intent::ChangeDraftText(String::new()),
        Intent::Submit,
        Intent::Delete(0),
        Intent::StartCreate,
        Intent::Submit,
        Intent::ChangeDraftText("n".to_string()),
        Intent::Submit,
        Intent::StartEdit(1),
        Intent::Delete(1),
        Intent::Delete(5),
        Intent::Cancel,
        Intent::StartEdit(0),
        Intent::Delete(0),
    ];
    let mut state = AppState::new();
    for intent in intents {
        state.update(intent);
        assert!(consistent(&state));
    }
    assert_eq!(state, AppState::default());
}

#[test]
fn opens_editor_on_create_and_valid_edit() {
    let state = listing(&["a", "b"]);
    assert!(state.opens_editor(&Intent::StartCreate));
    assert!(state.opens_editor(&Intent::StartEdit(0)));
    assert!(state.opens_editor(&Intent::StartEdit(1)));
    assert!(!state.opens_editor(&Intent::StartEdit(2)));
    assert!(!state.opens_editor(&Intent::Submit));
    assert!(!state.opens_editor(&Intent::Cancel));
    assert!(!state.opens_editor(&Intent::Delete(0)));
    assert!(!state.opens_editor(&Intent::ChangeDraftText("a".to_string())));
}
