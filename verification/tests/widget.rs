use modal_input::app::App;
use modal_input::app::Mode;
use modal_input::input::Key;
use modal_input::input::KeyPress;
use modal_input::input::handle_key;
use modal_input::render::Rect;
use modal_input::render::render_plan;

fn chars(s: &str) -> Vec<char> {
    s.chars().collect()
}

fn string_of(v: &[char]) -> String {
    v.iter().collect()
}

fn press(code: Key) -> KeyPress {
    KeyPress { code, ctrl: false }
}

fn ctrl(code: Key) -> KeyPress {
    KeyPress { code, ctrl: true }
}

#[test]
fn default_state_is_normal_and_empty() {
    let app = App::default();
    assert!(matches!(app.mode, Mode::Normal));
    assert!(app.input_box.is_empty());
    assert!(app.submission.is_empty());
}

#[test]
fn submit_empty_buffer_changes_nothing() {
    let mut app = App::default();
    app.mode = Mode::Insert;
    app.submission = chars("kept");
    let quit = handle_key(&mut app, press(Key::Enter));
    assert!(!quit);
    assert_eq!(string_of(&app.input_box), "");
    assert_eq!(string_of(&app.submission), "kept");
}

#[test]
fn submit_blank_buffer_changes_nothing() {
    let mut app = App::default();
    app.mode = Mode::Insert;
    app.input_box = chars("   ");
    app.submission = chars("kept");
    let quit = handle_key(&mut app, press(Key::Enter));
    assert!(!quit);
    assert_eq!(string_of(&app.input_box), "   ");
    assert_eq!(string_of(&app.submission), "kept");
}

#[test]
fn submit_hello_world_sets_submission_and_clears_buffer() {
    let mut app = App::default();
    app.mode = Mode::Insert;
    app.input_box = chars("hello world");
    let quit = handle_key(&mut app, press(Key::Enter));
    assert!(!quit);
    assert_eq!(string_of(&app.submission), "hello world");
    assert_eq!(string_of(&app.input_box), "");
}

#[test]
fn delete_word_drops_last_word() {
    let mut app = App::default();
    app.input_box = chars("foo bar baz");
    app.delete_word();
    assert_eq!(string_of(&app.input_box), "foo bar");
}

#[test]
fn delete_word_on_single_word_empties_buffer() {
    let mut app = App::default();
    app.input_box = chars("foo");
    app.delete_word();
    assert_eq!(string_of(&app.input_box), "");
}

#[test]
fn delete_word_on_empty_buffer_is_noop() {
    let mut app = App::default();
    app.delete_word();
    assert_eq!(string_of(&app.input_box), "");
}

#[test]
fn delete_word_with_trailing_whitespace_drops_last_word() {
    let mut app = App::default();
    app.input_box = chars("  foo bar  ");
    app.delete_word();
    assert_eq!(string_of(&app.input_box), "foo");
}

#[test]
fn ctrl_h_deletes_last_word() {
    let mut app = App::default();
    app.mode = Mode::Insert;
    app.input_box = chars("foo bar baz");
    let quit = handle_key(&mut app, ctrl(Key::Char('h')));
    assert!(!quit);
    assert_eq!(string_of(&app.input_box), "foo bar");
}

#[test]
fn ctrl_w_deletes_last_word() {
    let mut app = App::default();
    app.mode = Mode::Insert;
    app.input_box = chars("one two");
    let quit = handle_key(&mut app, ctrl(Key::Char('w')));
    assert!(!quit);
    assert_eq!(string_of(&app.input_box), "one");
}

#[test]
fn plain_h_and_w_are_inserted() {
    let mut app = App::default();
    app.mode = Mode::Insert;
    handle_key(&mut app, press(Key::Char('h')));
    handle_key(&mut app, press(Key::Char('w')));
    assert_eq!(string_of(&app.input_box), "hw");
}

#[test]
fn space_into_empty_buffer_is_noop() {
    let mut app = App::default();
    app.mode = Mode::Insert;
    let quit = handle_key(&mut app, press(Key::Char(' ')));
    assert!(!quit);
    assert_eq!(string_of(&app.input_box), "");
}

#[test]
fn space_into_blank_buffer_is_noop() {
    let mut app = App::default();
    app.mode = Mode::Insert;
    app.input_box = chars("  ");
    handle_key(&mut app, press(Key::Char(' ')));
    assert_eq!(string_of(&app.input_box), "  ");
}

#[test]
fn space_after_text_is_appended() {
    let mut app = App::default();
    app.mode = Mode::Insert;
    app.input_box = chars("a");
    handle_key(&mut app, press(Key::Char(' ')));
    assert_eq!(string_of(&app.input_box), "a ");
}

#[test]
fn backspace_on_empty_buffer_is_noop() {
    let mut app = App::default();
    app.mode = Mode::Insert;
    let quit = handle_key(&mut app, press(Key::Backspace));
    assert!(!quit);
    assert_eq!(string_of(&app.input_box), "");
}

#[test]
fn backspace_drops_last_character() {
    let mut app = App::default();
    app.mode = Mode::Insert;
    app.input_box = chars("ab");
    handle_key(&mut app, press(Key::Backspace));
    assert_eq!(string_of(&app.input_box), "a");
}

#[test]
fn q_in_normal_mode_quits() {
    let mut app = App::default();
    let quit = handle_key(&mut app, press(Key::Char('q')));
    assert!(quit);
    assert!(matches!(app.mode, Mode::Normal));
}

#[test]
fn q_in_insert_mode_is_inserted() {
    let mut app = App::default();
    app.mode = Mode::Insert;
    let quit = handle_key(&mut app, press(Key::Char('q')));
    assert!(!quit);
    assert_eq!(string_of(&app.input_box), "q");
}

#[test]
fn i_enters_insert_mode() {
    let mut app = App::default();
    let quit = handle_key(&mut app, press(Key::Char('i')));
    assert!(!quit);
    assert!(matches!(app.mode, Mode::Insert));
}

#[test]
fn esc_leaves_insert_mode() {
    let mut app = App::default();
    app.mode = Mode::Insert;
    app.input_box = chars("draft");
    let quit = handle_key(&mut app, press(Key::Esc));
    assert!(!quit);
    assert!(matches!(app.mode, Mode::Normal));
    assert_eq!(string_of(&app.input_box), "draft");
}

#[test]
fn other_keys_in_normal_mode_are_ignored() {
    let mut app = App::default();
    app.input_box = chars("text");
    let quit = handle_key(&mut app, press(Key::Char('x')));
    assert!(!quit);
    assert!(matches!(app.mode, Mode::Normal));
    assert_eq!(string_of(&app.input_box), "text");
}

#[test]
fn mode_names() {
    assert_eq!(Mode::Normal.name(), "normal");
    assert_eq!(Mode::Insert.name(), "insert");
}

#[test]
fn layout_splits_tall_frame_into_three_regions() {
    let frame = Rect { x: 0, y: 0, width: 80, height: 24 };
    let app = App::default();
    let plan = render_plan(frame, &app);
    assert_eq!(plan.regions.body.y, 0);
    assert_eq!(plan.regions.body.height, 22);
    assert_eq!(plan.regions.bar.y, 22);
    assert_eq!(plan.regions.bar.height, 1);
    assert_eq!(plan.regions.input.y, 23);
    assert_eq!(plan.regions.input.height, 1);
    assert_eq!(plan.regions.body.width, 80);
    assert_eq!(plan.regions.bar.width, 80);
    assert_eq!(plan.regions.input.width, 80);
}

#[test]
fn layout_degenerates_without_error_on_short_frames() {
    let app = App::default();
    for h in 0..4u16 {
        let frame = Rect { x: 2, y: 5, width: 10, height: h };
        let plan = render_plan(frame, &app);
        let total = plan.regions.body.height + plan.regions.bar.height
            + plan.regions.input.height;
        assert_eq!(total, h);
        if h >= 1 {
            let expected = if h >= 3 { h - 2 } else { 1 };
            assert_eq!(plan.regions.body.height, expected);
        }
    }
}

#[test]
fn plan_texts_show_state() {
    let mut app = App::default();
    app.mode = Mode::Insert;
    app.input_box = chars("typing");
    app.submission = chars("sent earlier");
    let frame = Rect { x: 0, y: 0, width: 40, height: 10 };
    let plan = render_plan(frame, &app);
    assert_eq!(string_of(&plan.body_text), "sent earlier");
    assert_eq!(string_of(&plan.input_text), "typing");
    assert_eq!(plan.bar_left, " insert");
    assert_eq!(plan.bar_right, "<filled char> <bg char> <x> <y> ");
}

#[test]
fn bar_shows_normal_in_normal_mode() {
    let app = App::default();
    let frame = Rect { x: 0, y: 0, width: 40, height: 10 };
    let plan = render_plan(frame, &app);
    assert_eq!(plan.bar_left, " normal");
}

#[test]
fn cursor_sits_past_buffer_in_insert_mode() {
    let mut app = App::default();
    app.mode = Mode::Insert;
    app.input_box = chars("abc");
    let frame = Rect { x: 0, y: 0, width: 80, height: 24 };
    let plan = render_plan(frame, &app);
    assert_eq!(plan.cursor, Some((3, 23)));
}

#[test]
fn cursor_counts_wide_characters_by_columns() {
    let mut app = App::default();
    app.mode = Mode::Insert;
    // One ideographic character occupies two columns, not one.
    app.input_box = chars("\u{3042}");
    let frame = Rect { x: 4, y: 0, width: 80, height: 24 };
    let plan = render_plan(frame, &app);
    assert_eq!(plan.cursor, Some((6, 23)));
}

#[test]
fn cursor_is_hidden_in_normal_mode() {
    let mut app = App::default();
    app.input_box = chars("abc");
    let frame = Rect { x: 0, y: 0, width: 80, height: 24 };
    let plan = render_plan(frame, &app);
    assert_eq!(plan.cursor, None);
}

#[test]
fn submission_sequence_keeps_last_submitted_line() {
    let mut app = App::default();
    handle_key(&mut app, press(Key::Char('i')));
    for c in "hi there".chars() {
        handle_key(&mut app, press(Key::Char(c)));
    }
    handle_key(&mut app, press(Key::Enter));
    assert_eq!(string_of(&app.submission), "hi there");
    for c in "again".chars() {
        handle_key(&mut app, press(Key::Char(c)));
    }
    handle_key(&mut app, press(Key::Enter));
    assert_eq!(string_of(&app.submission), "again");
    assert_eq!(string_of(&app.input_box), "");
}
