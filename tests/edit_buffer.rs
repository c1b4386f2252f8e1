use latios::description_edit_state::DescriptionEditState;

fn buffer(s: &str) -> DescriptionEditState {
    DescriptionEditState::new(s.to_string())
}

#[test]
fn new_buffer_reads_back_unchanged() {
    for s in ["", "plain", "héllo\nwörld", "a\n\nb\n", "日本語\n🦀"] {
        assert_eq!(buffer(s).into_string(), s);
        assert_eq!(buffer(s).text(), s);
    }
}

#[test]
fn cursor_starts_at_end() {
    assert_eq!(buffer("").cursor_position(), (0, 0));
    assert_eq!(buffer("abc").cursor_position(), (0, 3));
    assert_eq!(buffer("ab\ncdé").cursor_position(), (1, 3));
    assert_eq!(buffer("ab\n").cursor_position(), (1, 0));
}

#[test]
fn insert_then_backspace_restores_text_and_cursor() {
    let mut b = buffer("añb\nc");
    b.move_cursor_up();
    b.move_cursor_left();
    let before_text = b.text().to_string();
    let before_cursor = b.cursor_position();
    for c in ['x', 'é', '🦀', '\n'] {
        b.insert_char(c);
        b.backspace();
        assert_eq!(b.text(), before_text);
        assert_eq!(b.cursor_position(), before_cursor);
    }
}

#[test]
fn insert_splices_at_cursor() {
    let mut b = buffer("héllo");
    b.move_cursor_left();
    b.move_cursor_left();
    b.move_cursor_left();
    b.insert_char('X');
    assert_eq!(b.text(), "héXllo");
    assert_eq!(b.cursor_position(), (0, 3));
    b.insert_newline();
    assert_eq!(b.text(), "héX\nllo");
    assert_eq!(b.cursor_position(), (1, 0));
}

#[test]
fn multibyte_edits_keep_cursor_on_characters() {
    let mut b = buffer("ü🦀é\n日本");
    b.move_cursor_up();
    assert_eq!(b.cursor_position(), (0, 2));
    b.backspace();
    assert_eq!(b.text(), "üé\n日本");
    b.move_cursor_right();
    b.move_cursor_right();
    b.insert_char('ß');
    assert_eq!(b.text(), "üé\nß日本");
    b.move_cursor_down();
    b.move_cursor_left();
    b.move_cursor_right();
    b.backspace();
    assert_eq!(b.text(), "üé\n日本");
    assert_eq!(b.cursor_position(), (1, 0));
}

#[test]
fn edits_at_the_ends_do_nothing() {
    let mut b = buffer("ab");
    b.move_cursor_right();
    assert_eq!(b.cursor_position(), (0, 2));
    b.move_cursor_left();
    b.move_cursor_left();
    b.move_cursor_left();
    assert_eq!(b.cursor_position(), (0, 0));
    b.backspace();
    assert_eq!(b.text(), "ab");
    b.move_cursor_up();
    assert_eq!(b.cursor_position(), (0, 0));
    b.move_cursor_down();
    assert_eq!(b.cursor_position(), (0, 0));
}

#[test]
fn empty_buffer_is_one_line() {
    let mut b = buffer("");
    b.move_cursor_down();
    b.move_cursor_up();
    b.backspace();
    assert_eq!(b.cursor_position(), (0, 0));
    assert_eq!(b.into_string(), "");
}

#[test]
fn sticky_column_survives_a_short_line() {
    let mut b = buffer("abcdefghij\nabc\nabcdefghij");
    b.move_cursor_up();
    b.move_cursor_up();
    assert_eq!(b.cursor_position(), (0, 10));
    b.move_cursor_left();
    b.move_cursor_left();
    assert_eq!(b.cursor_position(), (0, 8));
    b.move_cursor_down();
    assert_eq!(b.cursor_position(), (1, 3));
    b.move_cursor_down();
    assert_eq!(b.cursor_position(), (2, 8));
    b.move_cursor_up();
    assert_eq!(b.cursor_position(), (1, 3));
    b.move_cursor_up();
    assert_eq!(b.cursor_position(), (0, 8));
}

#[test]
fn horizontal_move_forgets_the_column() {
    let mut b = buffer("abcdefghij\nabc\nabcdefghij");
    b.move_cursor_up();
    b.move_cursor_up();
    b.move_cursor_down();
    assert_eq!(b.cursor_position(), (1, 3));
    b.move_cursor_left();
    b.move_cursor_down();
    assert_eq!(b.cursor_position(), (2, 2));
}
