use plippet::config::{Config, SnippetConfig};
use plippet::editor::{
    display_key, next_new_key, DraftKind, Modal, ModalAction, ModalAnswer, SnippetApp,
    SnippetDraft, Status, Tone,
};

#[test]
fn next_new_key_when_no_existing() {
    assert_eq!(next_new_key(&[]), "new");
}

#[test]
fn next_new_key_when_new_taken() {
    assert_eq!(next_new_key(&["new".to_string()]), "new-2");
}

#[test]
fn next_new_key_when_new_and_new_2_taken() {
    assert_eq!(next_new_key(&["new".to_string(), "new-2".to_string()]), "new-3");
}

#[test]
fn next_new_key_skips_unrelated_keys() {
    assert_eq!(next_new_key(&["sig".to_string(), "addr".to_string()]), "new");
}

#[test]
fn next_new_key_fills_holes() {
    // `new` and `new-3` are taken; `new-2` is free → returns `new-2`.
    assert_eq!(next_new_key(&["new".to_string(), "new-3".to_string()]), "new-2");
}

#[test]
fn next_new_key_counts_past_nine() {
    let mut keys = vec!["new".to_string()];
    for n in 2..=11 {
        keys.push(format!("new-{n}"));
    }
    assert_eq!(next_new_key(&keys), "new-12");
}

#[test]
fn round_trip_body_snippet() {
    let s = SnippetConfig {
        key: "sig".into(),
        name: "Signoff".into(),
        body: Some("Best,\nJ\n".into()),
        command: None,
    };
    let draft = SnippetDraft::from_config(&s);
    assert_eq!(draft.kind, DraftKind::Body);
    assert_eq!(draft.body, "Best,\nJ\n");
    assert!(draft.command.is_empty(), "command buffer should be empty for body-only snippet");

    let back = draft.to_config();
    assert_eq!(back.key, "sig");
    assert_eq!(back.body.as_deref(), Some("Best,\nJ\n"));
    assert_eq!(back.command, None);
}

#[test]
fn round_trip_command_snippet() {
    let s = SnippetConfig {
        key: "today".into(),
        name: "Date".into(),
        body: None,
        command: Some("date +%Y-%m-%d".into()),
    };
    let draft = SnippetDraft::from_config(&s);
    assert_eq!(draft.kind, DraftKind::Command);
    assert_eq!(draft.command, "date +%Y-%m-%d");
    assert!(draft.body.is_empty(), "body buffer should be empty for command-only snippet");

    let back = draft.to_config();
    assert_eq!(back.command.as_deref(), Some("date +%Y-%m-%d"));
    assert_eq!(back.body, None);
}

#[test]
fn new_unique_creates_a_valid_draft() {
    let draft = SnippetDraft::new_unique(&[]);
    let cfg = Config { snippet: vec![draft.to_config()] };
    cfg.validate().expect("a freshly-added snippet should pass validation");
}

#[test]
fn new_unique_does_not_collide_with_existing_keys() {
    let existing = vec!["new".to_string(), "new-2".to_string()];
    let draft = SnippetDraft::new_unique(&existing);
    assert_eq!(draft.key, "new-3");
}

#[test]
fn kind_toggle_does_not_corrupt_saved_config() {
    let s = SnippetConfig { key: "k".into(), name: "n".into(), body: Some("hello".into()), command: None };
    let mut draft = SnippetDraft::from_config(&s);

    // Switch to command, type something, serialize → only command present.
    draft.kind = DraftKind::Command;
    draft.command.push_str("echo hi");
    let cfg = draft.to_config();
    assert_eq!(cfg.command.as_deref(), Some("echo hi"));
    assert_eq!(cfg.body, None);

    // Switch back to body → the earlier "hello" buffer survives.
    draft.kind = DraftKind::Body;
    let cfg = draft.to_config();
    assert_eq!(cfg.body.as_deref(), Some("hello"));
    assert_eq!(cfg.command, None);
}

fn body(key: &str, name: &str, body: &str) -> SnippetConfig {
    SnippetConfig { key: key.into(), name: name.into(), body: Some(body.into()), command: None }
}

fn sample_app() -> SnippetApp {
    let cfg = Config { snippet: vec![body("a", "A", "x"), body("b", "B", "y"), body("c", "C", "z")] };
    SnippetApp::load("/tmp/s.toml".to_string(), Ok(cfg))
}

#[test]
fn load_selects_first_snippet() {
    let app = sample_app();
    assert_eq!(app.snippets.len(), 3);
    assert_eq!(app.selected, Some(0));
    assert!(!app.dirty);
    let app = SnippetApp::load("/x".to_string(), Err("boom".to_string()));
    assert!(app.snippets.is_empty());
    assert_eq!(app.selected, None);
    assert!(matches!(&app.status, Status::Error(m) if m == "boom"));
}

#[test]
fn add_then_save_cycle() {
    let mut app = sample_app();
    app.add_snippet();
    assert_eq!(app.snippets.len(), 4);
    assert_eq!(app.snippets[3].key, "new");
    assert_eq!(app.selected, Some(3));
    assert!(app.dirty);
    let cfg = app.save().expect("valid drafts are saved");
    assert_eq!(cfg.snippet.len(), 4);
    app.finish_save(Ok(()));
    assert!(!app.dirty);
    assert!(matches!(app.status, Status::Saved));
    app.mark_dirty();
    assert!(matches!(app.status, Status::Idle));
    app.finish_save(Err("disk full".to_string()));
    assert!(app.dirty);
    assert!(matches!(&app.status, Status::Error(m) if m == "save failed: disk full"));
}

#[test]
fn invalid_drafts_are_not_saved() {
    let mut app = sample_app();
    app.snippets[1].key = "a".to_string();
    assert!(app.save().is_none());
    assert!(matches!(&app.status, Status::Error(m) if m == "not saved: duplicate snippet key: a"));
    let (tone, line) = app.status_line();
    assert_eq!(tone, Tone::Bad);
    assert_eq!(line, "\u{2717} not saved: duplicate snippet key: a");
}

#[test]
fn delete_adjusts_selection() {
    let mut app = sample_app();
    app.selected = Some(2);
    app.delete_snippet(0);
    assert_eq!(app.selected, Some(1));
    assert_eq!(app.snippets[0].key, "b");
    app.delete_snippet(1);
    assert_eq!(app.selected, None);
    assert_eq!(app.snippets.len(), 1);
    app.delete_snippet(5);
    assert_eq!(app.snippets.len(), 1);
}

#[test]
fn closing_with_unsaved_changes_asks_first() {
    let mut app = sample_app();
    assert!(!app.close_requested());
    app.mark_dirty();
    assert!(app.close_requested());
    assert_eq!(app.modal, Modal::ConfirmClose);
    assert_eq!(app.answer_modal(ModalAnswer::Pending), ModalAction::Nothing);
    assert_eq!(app.modal, Modal::ConfirmClose);
    assert_eq!(app.answer_modal(ModalAnswer::Confirm), ModalAction::SaveThenClose);
    // the save failed: the dialog comes back
    assert!(!app.after_close_save());
    assert_eq!(app.modal, Modal::ConfirmClose);
    assert_eq!(app.answer_modal(ModalAnswer::Discard), ModalAction::Close);
    assert!(app.confirmed_close);
    assert!(!app.close_requested());
}

#[test]
fn delete_and_revert_dialogs() {
    let mut app = sample_app();
    app.request_delete(1);
    assert_eq!(app.answer_modal(ModalAnswer::Cancel), ModalAction::Nothing);
    assert_eq!(app.snippets.len(), 3);
    app.request_delete(1);
    assert_eq!(app.answer_modal(ModalAnswer::Confirm), ModalAction::Nothing);
    assert_eq!(app.snippets.len(), 2);
    assert_eq!(app.modal, Modal::Hidden);
    assert!(!app.request_revert());
    assert_eq!(app.answer_modal(ModalAnswer::Confirm), ModalAction::Reload);
    app.revert(Ok(Config { snippet: vec![body("z", "Z", "q")] }));
    assert_eq!(app.snippets.len(), 1);
    assert!(!app.dirty);
    assert!(app.request_revert());
}

#[test]
fn status_line_counts_snippets() {
    let app = sample_app();
    assert_eq!(app.status_line(), (Tone::Good, "\u{2713} 3 snippets, valid".to_string()));
    let one = SnippetApp::load("/x".to_string(), Ok(Config { snippet: vec![body("a", "A", "x")] }));
    assert_eq!(one.status_line().1, "\u{2713} 1 snippet, valid");
    assert_eq!(display_key("", "(empty key)"), "(empty key)");
    assert_eq!(display_key("k", "(empty key)"), "k");
}

#[test]
fn save_is_offered_only_for_valid_drafts() {
    let mut app = sample_app();
    assert!(app.can_save());
    app.snippets[0].name = "  ".to_string();
    assert!(!app.can_save());
}
