//! Navigation, viewport and deletion behavior of the list controller.

use tudu::app::{App, Key};

/// Builds an entry through the edit-mode flow.
fn add_item(app: &mut App, text: &str) {
    app.enter_edit_mode();
    for c in text.chars() {
        app.insert_char(c);
    }
    app.create_tudu();
}

fn descriptions(app: &App) -> Vec<String> {
    app.tudus.iter().map(|t| t.description.clone()).collect()
}

#[test]
fn empty_list_navigation_is_noop() {
    let mut app = App::new();
    assert_eq!(app.selected, None);
    app.previous_selected();
    app.next_selected();
    assert_eq!(app.selected, None);
    assert_eq!(app.offset, 0);
    assert!(app.tudus.is_empty());
}

#[test]
fn selection_stays_in_bounds_under_repeated_navigation() {
    let mut app = App::new();
    add_item(&mut app, "a");
    add_item(&mut app, "b");
    add_item(&mut app, "c");
    app.set_msg_size(2);
    for _ in 0..10 {
        app.previous_selected();
        let i = app.selected.unwrap();
        assert!(i < app.tudus.len());
    }
    assert_eq!(app.selected, Some(0));
    for _ in 0..10 {
        app.next_selected();
        let i = app.selected.unwrap();
        assert!(i < app.tudus.len());
    }
    assert_eq!(app.selected, Some(2));
}

#[test]
fn viewport_invariant_after_adjust() {
    let mut app = App::new();
    for text in ["a", "b", "c", "d", "e"] {
        add_item(&mut app, text);
    }
    app.set_msg_size(2);
    for _ in 0..6 {
        app.next_selected();
        let i = app.selected.unwrap();
        assert!(app.offset <= i);
        assert!(i < app.offset + app.msg_size);
    }
    for _ in 0..6 {
        app.previous_selected();
        let i = app.selected.unwrap();
        assert!(app.offset <= i);
        assert!(i < app.offset + app.msg_size);
    }
}

#[test]
fn move_up_at_top_is_idempotent() {
    let mut app = App::new();
    add_item(&mut app, "a");
    add_item(&mut app, "b");
    app.set_msg_size(5);
    assert_eq!(app.selected, Some(0));
    let before = (descriptions(&app), app.selected, app.offset, app.edit_mode, app.exit);
    app.previous_selected();
    let after = (descriptions(&app), app.selected, app.offset, app.edit_mode, app.exit);
    assert_eq!(before, after);
}

#[test]
fn move_down_at_bottom_is_idempotent() {
    let mut app = App::new();
    add_item(&mut app, "a");
    add_item(&mut app, "b");
    app.set_msg_size(5);
    app.next_selected();
    assert_eq!(app.selected, Some(1));
    let before = (descriptions(&app), app.selected, app.offset, app.edit_mode, app.exit);
    app.next_selected();
    let after = (descriptions(&app), app.selected, app.offset, app.edit_mode, app.exit);
    assert_eq!(before, after);
}

#[test]
fn scroll_offset_follows_selection_down() {
    let mut app = App::new();
    for text in ["a", "b", "c", "d", "e"] {
        add_item(&mut app, text);
    }
    app.set_msg_size(3);
    for _ in 0..4 {
        app.next_selected();
    }
    assert_eq!(app.selected, Some(4));
    assert_eq!(app.offset, 2);
    let visible: Vec<String> =
        app.get_visible_items().iter().map(|t| t.description.clone()).collect();
    assert_eq!(visible, vec!["c", "d", "e"]);
    assert_eq!(app.visible_selected(), Some(2));
}

#[test]
fn scroll_offset_follows_selection_up() {
    let mut app = App::new();
    for text in ["a", "b", "c", "d", "e"] {
        add_item(&mut app, text);
    }
    app.set_msg_size(3);
    for _ in 0..4 {
        app.next_selected();
    }
    assert_eq!(app.offset, 2);
    for _ in 0..4 {
        app.previous_selected();
    }
    assert_eq!(app.selected, Some(0));
    assert_eq!(app.offset, 0);
}

#[test]
fn toggle_marks_and_unmarks() {
    let mut app = App::new();
    add_item(&mut app, "Buy milk");
    assert!(!app.tudus[0].completed);
    app.handle_key(Key::Enter);
    assert!(app.tudus[0].completed);
    assert_eq!(app.tudus[0].description, "Buy milk");
    app.handle_key(Key::Enter);
    assert!(!app.tudus[0].completed);
}

#[test]
fn delete_only_item_leaves_selection_absent() {
    let mut app = App::new();
    add_item(&mut app, "only");
    assert_eq!(app.selected, Some(0));
    app.handle_key(Key::Char('D'));
    assert!(app.tudus.is_empty());
    assert_eq!(app.selected, None);
    assert_eq!(app.offset, 0);
    app.previous_selected();
    app.next_selected();
    app.handle_key(Key::Char('D'));
    assert!(app.tudus.is_empty());
    assert_eq!(app.selected, None);
}

#[test]
fn delete_middle_item_keeps_position() {
    let mut app = App::new();
    add_item(&mut app, "a");
    add_item(&mut app, "b");
    add_item(&mut app, "c");
    app.next_selected();
    assert_eq!(app.selected, Some(1));
    app.delete_selected();
    assert_eq!(descriptions(&app), vec!["a", "c"]);
    assert_eq!(app.selected, Some(1));
}

#[test]
fn delete_last_item_clamps_selection() {
    let mut app = App::new();
    add_item(&mut app, "a");
    add_item(&mut app, "b");
    add_item(&mut app, "c");
    app.next_selected();
    app.next_selected();
    assert_eq!(app.selected, Some(2));
    app.delete_selected();
    assert_eq!(descriptions(&app), vec!["a", "b"]);
    assert_eq!(app.selected, Some(1));
}

#[test]
fn quit_keys_raise_exit() {
    let mut app = App::new();
    assert!(!app.exit);
    app.handle_key(Key::Char('q'));
    assert!(app.exit);

    let mut app2 = App::new();
    app2.handle_key(Key::Esc);
    assert!(app2.exit);
}

#[test]
fn unbound_keys_are_noops_in_normal_mode() {
    let mut app = App::new();
    add_item(&mut app, "a");
    let before = (descriptions(&app), app.selected, app.offset, app.edit_mode, app.exit);
    app.handle_key(Key::Backspace);
    app.handle_key(Key::Other);
    app.handle_key(Key::Char('z'));
    let after = (descriptions(&app), app.selected, app.offset, app.edit_mode, app.exit);
    assert_eq!(before, after);
}

#[test]
fn visible_items_window_is_clamped_to_list() {
    let mut app = App::new();
    add_item(&mut app, "a");
    add_item(&mut app, "b");
    app.set_msg_size(10);
    let visible: Vec<String> =
        app.get_visible_items().iter().map(|t| t.description.clone()).collect();
    assert_eq!(visible, vec!["a", "b"]);

    app.set_msg_size(0);
    assert!(app.get_visible_items().is_empty());
    assert_eq!(app.visible_selected(), None);
}

#[test]
fn help_message_depends_on_mode() {
    let mut app = App::new();
    let normal = app.get_help_message();
    assert_eq!(normal.len(), 10);
    assert_eq!(normal[0], "Exit ");
    assert_eq!(normal[1], "<Esc/q>");
    assert_eq!(normal[8], " Mark Completed ");
    app.enter_edit_mode();
    let editing = app.get_help_message();
    assert_eq!(editing, vec!["Go back ", "<Esc>", " Add ", "<Enter>"]);
}
