use todo_tui::app::{App, InputMode, KeyCode, KeyModifier};

fn popup_in_sync(app: &App) -> bool {
    app.show_popup == (app.input_mode == InputMode::Editing)
}

#[test]
fn new_app_starts_in_normal_with_hidden_popup() {
    let app = App::new();
    assert_eq!(app.input_mode, InputMode::Normal);
    assert!(!app.show_popup);
    assert_eq!(app.editor.buffer, "");
    assert!(app.items.items.is_empty());
    assert_eq!(app.items.selected, None);
    assert!(popup_in_sync(&app));
}

#[test]
fn round_trip_adds_milk_item() {
    let mut app = App::new();
    let quit = app.handle_key(KeyCode::Char('p'), KeyModifier::Unmodified);
    assert!(!quit);
    assert_eq!(app.input_mode, InputMode::Editing);
    assert!(app.show_popup);
    for c in ['m', 'i', 'l', 'k'] {
        let quit = app.handle_key(KeyCode::Char(c), KeyModifier::Unmodified);
        assert!(!quit);
    }
    assert_eq!(app.editor.buffer, "milk");
    assert_eq!(app.editor.display_width, 4);
    let quit = app.handle_key(KeyCode::Enter, KeyModifier::Unmodified);
    assert!(!quit);
    assert_eq!(app.items.items.len(), 1);
    assert_eq!(app.items.items[0].text, "milk");
    assert_eq!(app.items.items[0].priority, 1);
    assert_eq!(app.input_mode, InputMode::Normal);
    assert!(!app.show_popup);
    assert_eq!(app.editor.buffer, "");
}

#[test]
fn cancel_discards_buffer_and_leaves_list_unchanged() {
    let mut app = App::new();
    app.handle_key(KeyCode::Char('p'), KeyModifier::Unmodified);
    for c in ['a', 'b', 'c'] {
        app.handle_key(KeyCode::Char(c), KeyModifier::Unmodified);
    }
    assert_eq!(app.editor.buffer, "abc");
    let quit = app.handle_key(KeyCode::Esc, KeyModifier::Unmodified);
    assert!(!quit);
    assert_eq!(app.editor.buffer, "");
    assert_eq!(app.input_mode, InputMode::Normal);
    assert!(!app.show_popup);
    assert!(app.items.items.is_empty());
}

#[test]
fn esc_quits_only_in_normal_mode() {
    let mut app = App::new();
    app.handle_key(KeyCode::Char('p'), KeyModifier::Unmodified);
    assert!(!app.handle_key(KeyCode::Esc, KeyModifier::Unmodified));
    assert_eq!(app.input_mode, InputMode::Normal);
    assert!(app.handle_key(KeyCode::Esc, KeyModifier::Unmodified));
}

#[test]
fn shift_enter_is_a_reserved_no_op() {
    let mut app = App::new();
    app.handle_key(KeyCode::Char('p'), KeyModifier::Unmodified);
    app.handle_key(KeyCode::Char('x'), KeyModifier::Unmodified);
    let quit = app.handle_key(KeyCode::Enter, KeyModifier::Shift);
    assert!(!quit);
    assert_eq!(app.input_mode, InputMode::Editing);
    assert!(app.show_popup);
    assert_eq!(app.editor.buffer, "x");
    assert!(app.items.items.is_empty());
}

#[test]
fn backspace_edits_buffer_in_editing_mode() {
    let mut app = App::new();
    app.handle_key(KeyCode::Char('p'), KeyModifier::Unmodified);
    app.handle_key(KeyCode::Char('a'), KeyModifier::Unmodified);
    app.handle_key(KeyCode::Char('b'), KeyModifier::Unmodified);
    app.handle_key(KeyCode::Backspace, KeyModifier::Unmodified);
    assert_eq!(app.editor.buffer, "a");
    app.handle_key(KeyCode::Backspace, KeyModifier::Unmodified);
    app.handle_key(KeyCode::Backspace, KeyModifier::Unmodified);
    assert_eq!(app.editor.buffer, "");
    assert_eq!(app.editor.display_width, 0);
}

#[test]
fn navigation_keys_drive_the_selection_in_normal_mode() {
    let mut app = App::new();
    for text in ["one", "two", "three"] {
        app.handle_key(KeyCode::Char('p'), KeyModifier::Unmodified);
        for c in text.chars() {
            app.handle_key(KeyCode::Char(c), KeyModifier::Unmodified);
        }
        app.handle_key(KeyCode::Enter, KeyModifier::Unmodified);
    }
    assert_eq!(app.items.items.len(), 3);
    app.handle_key(KeyCode::Down, KeyModifier::Unmodified);
    assert_eq!(app.items.selected, Some(0));
    app.handle_key(KeyCode::Down, KeyModifier::Shift);
    assert_eq!(app.items.selected, Some(1));
    app.handle_key(KeyCode::Up, KeyModifier::Unmodified);
    assert_eq!(app.items.selected, Some(0));
    app.handle_key(KeyCode::Up, KeyModifier::Unmodified);
    assert_eq!(app.items.selected, Some(2));
    app.handle_key(KeyCode::Left, KeyModifier::Unmodified);
    assert_eq!(app.items.selected, None);
}

#[test]
fn navigation_in_normal_mode_with_empty_list_is_safe() {
    let mut app = App::new();
    app.handle_key(KeyCode::Down, KeyModifier::Unmodified);
    assert_eq!(app.items.selected, None);
    app.handle_key(KeyCode::Up, KeyModifier::Unmodified);
    assert_eq!(app.items.selected, None);
}

#[test]
fn unhandled_keys_change_nothing() {
    let mut app = App::new();
    app.handle_key(KeyCode::Enter, KeyModifier::Unmodified);
    app.handle_key(KeyCode::Backspace, KeyModifier::Unmodified);
    app.handle_key(KeyCode::Char('x'), KeyModifier::Unmodified);
    app.handle_key(KeyCode::Other, KeyModifier::Other);
    assert_eq!(app.input_mode, InputMode::Normal);
    assert!(!app.show_popup);
    assert_eq!(app.editor.buffer, "");
    assert!(app.items.items.is_empty());
    app.handle_key(KeyCode::Char('p'), KeyModifier::Unmodified);
    app.handle_key(KeyCode::Left, KeyModifier::Unmodified);
    app.handle_key(KeyCode::Other, KeyModifier::Unmodified);
    assert_eq!(app.input_mode, InputMode::Editing);
    assert_eq!(app.editor.buffer, "");
}

#[test]
fn p_with_modifier_does_not_open_popup() {
    let mut app = App::new();
    app.handle_key(KeyCode::Char('p'), KeyModifier::Shift);
    assert_eq!(app.input_mode, InputMode::Normal);
    assert!(!app.show_popup);
}

#[test]
fn popup_visible_iff_editing_across_a_long_key_sequence() {
    let mut app = App::new();
    let sequence = [
        (KeyCode::Down, KeyModifier::Unmodified),
        (KeyCode::Char('p'), KeyModifier::Unmodified),
        (KeyCode::Char('a'), KeyModifier::Unmodified),
        (KeyCode::Enter, KeyModifier::Shift),
        (KeyCode::Backspace, KeyModifier::Unmodified),
        (KeyCode::Enter, KeyModifier::Unmodified),
        (KeyCode::Up, KeyModifier::Unmodified),
        (KeyCode::Char('p'), KeyModifier::Unmodified),
        (KeyCode::Char('b'), KeyModifier::Other),
        (KeyCode::Esc, KeyModifier::Unmodified),
        (KeyCode::Left, KeyModifier::Other),
        (KeyCode::Esc, KeyModifier::Shift),
        (KeyCode::Char('p'), KeyModifier::Unmodified),
        (KeyCode::Other, KeyModifier::Unmodified),
        (KeyCode::Enter, KeyModifier::Unmodified),
    ];
    assert!(popup_in_sync(&app));
    for (code, mods) in sequence {
        app.handle_key(code, mods);
        assert!(popup_in_sync(&app));
    }
}

#[test]
fn input_width_reports_the_editor_width() {
    let mut app = App::new();
    app.handle_key(KeyCode::Char('p'), KeyModifier::Unmodified);
    app.handle_key(KeyCode::Char('a'), KeyModifier::Unmodified);
    app.handle_key(KeyCode::Char('b'), KeyModifier::Unmodified);
    assert_eq!(app.input_width(), 2);
}
