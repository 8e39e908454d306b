use nmrs_tui::ui::input::{Input, InputMode};

fn typed(text: &str) -> Input {
    let mut i = Input::new();
    for c in text.chars() {
        i.enter_char(c);
    }
    i
}

#[test]
fn new_input_is_empty_and_masked() {
    let i = Input::new();
    assert_eq!(i.mode, InputMode::Normal);
    assert_eq!(i.value, "");
    assert_eq!(i.cx, 0);
    assert!(i.hidden_password);
}

#[test]
fn typing_appends_and_moves_cursor() {
    let i = typed("abc");
    assert_eq!(i.value, "abc");
    assert_eq!(i.cx, 3);
}

#[test]
fn typing_in_the_middle_with_multibyte_characters() {
    let mut i = typed("héllo");
    i.move_cursor_left();
    i.move_cursor_left();
    i.move_cursor_left();
    assert_eq!(i.cx, 2);
    i.enter_char('ß');
    assert_eq!(i.value, "héßllo");
    assert_eq!(i.cx, 3);
    i.enter_char('🙂');
    assert_eq!(i.value, "héß🙂llo");
    assert_eq!(i.cx, 4);
}

#[test]
fn cursor_past_the_end_types_at_the_end() {
    let mut i = typed("ab");
    i.cx = 10;
    i.enter_char('c');
    assert_eq!(i.value, "abc");
    assert_eq!(i.cx, 3);
}

#[test]
fn backspace_deletes_before_cursor() {
    let mut i = typed("añb");
    i.move_cursor_left();
    i.delete_char();
    assert_eq!(i.value, "ab");
    assert_eq!(i.cx, 1);
    i.delete_char();
    assert_eq!(i.value, "b");
    assert_eq!(i.cx, 0);
    // at the start nothing happens
    i.delete_char();
    assert_eq!(i.value, "b");
    assert_eq!(i.cx, 0);
}

#[test]
fn backspace_undoes_typing() {
    let mut i = typed("wifi");
    i.move_cursor_left();
    let before = (i.value.clone(), i.cx);
    i.enter_char('é');
    i.delete_char();
    assert_eq!((i.value.clone(), i.cx), before);
}

#[test]
fn cursor_stays_within_text() {
    let mut i = typed("xy");
    i.move_cursor_right();
    assert_eq!(i.cx, 2);
    i.move_cursor_left();
    i.move_cursor_left();
    i.move_cursor_left();
    assert_eq!(i.cx, 0);
    i.move_cursor_right();
    i.move_cursor_left();
    assert_eq!(i.cx, 0);
    i.reset_cursor();
    assert_eq!(i.cx, 0);
    assert_eq!(i.value, "xy");
}
