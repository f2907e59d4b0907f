use ferrumdb::input::{InputHandler, Mode};

fn typed(text: &str) -> InputHandler {
    let mut handler = InputHandler::new();
    for c in text.chars() {
        handler.insert_char(c);
    }
    handler
}

#[test]
fn new_handler_is_empty_and_in_normal_mode() {
    let handler = InputHandler::new();
    assert_eq!(handler.buffer(), "");
    assert_eq!(handler.cursor_position(), 0);
    assert_eq!(handler.len(), 0);
    assert_eq!(handler.mode(), Mode::Normal);
}

#[test]
fn default_handler_is_a_new_handler() {
    let handler = InputHandler::default();
    assert_eq!(handler.buffer(), "");
    assert_eq!(handler.cursor_position(), 0);
    assert_eq!(handler.mode(), Mode::Normal);
}

#[test]
fn insert_char_appends_and_advances() {
    let handler = typed("SELECT 1");
    assert_eq!(handler.buffer(), "SELECT 1");
    assert_eq!(handler.cursor_position(), 8);
    assert_eq!(handler.len(), 8);
}

#[test]
fn insert_char_in_the_middle() {
    let mut handler = typed("ac");
    handler.move_cursor_left();
    handler.insert_char('b');
    assert_eq!(handler.buffer(), "abc");
    assert_eq!(handler.cursor_position(), 2);
}

#[test]
fn insert_char_takes_characters_of_any_width() {
    let mut handler = typed("né日");
    assert_eq!(handler.buffer(), "né日");
    assert_eq!(handler.cursor_position(), 3);
    assert_eq!(handler.len(), 3);
    handler.move_cursor_left();
    handler.insert_char('ß');
    assert_eq!(handler.buffer(), "néß日");
    assert_eq!(handler.cursor_position(), 3);
    handler.delete_char();
    handler.delete_char();
    assert_eq!(handler.buffer(), "n日");
    assert_eq!(handler.cursor_position(), 1);
}

#[test]
fn delete_char_removes_the_character_before_the_cursor() {
    let mut handler = typed("abc");
    handler.move_cursor_left();
    handler.delete_char();
    assert_eq!(handler.buffer(), "ac");
    assert_eq!(handler.cursor_position(), 1);
}

#[test]
fn delete_char_at_start_does_nothing() {
    let mut handler = typed("abc");
    handler.move_cursor_to_start();
    handler.delete_char();
    assert_eq!(handler.buffer(), "abc");
    assert_eq!(handler.cursor_position(), 0);
}

#[test]
fn delete_char_on_empty_line_does_nothing() {
    let mut handler = InputHandler::new();
    handler.delete_char();
    assert_eq!(handler.buffer(), "");
    assert_eq!(handler.cursor_position(), 0);
}

#[test]
fn delete_forward_removes_the_character_at_the_cursor() {
    let mut handler = typed("abc");
    handler.move_cursor_to_start();
    handler.move_cursor_right();
    handler.delete_forward();
    assert_eq!(handler.buffer(), "ac");
    assert_eq!(handler.cursor_position(), 1);
}

#[test]
fn delete_forward_at_end_does_nothing() {
    let mut handler = typed("abc");
    handler.delete_forward();
    assert_eq!(handler.buffer(), "abc");
    assert_eq!(handler.cursor_position(), 3);
}

#[test]
fn delete_forward_on_last_character() {
    let mut handler = typed("abc");
    handler.move_cursor_left();
    handler.delete_forward();
    assert_eq!(handler.buffer(), "ab");
    assert_eq!(handler.cursor_position(), 2);
}

#[test]
fn cursor_stops_at_both_ends() {
    let mut handler = typed("ab");
    handler.move_cursor_right();
    assert_eq!(handler.cursor_position(), 2);
    handler.move_cursor_left();
    handler.move_cursor_left();
    assert_eq!(handler.cursor_position(), 0);
    handler.move_cursor_left();
    assert_eq!(handler.cursor_position(), 0);
    handler.move_cursor_right();
    assert_eq!(handler.cursor_position(), 1);
    assert_eq!(handler.buffer(), "ab");
}

#[test]
fn start_and_end_from_any_position() {
    let mut position: usize = 0;
    while position <= 5 {
        let mut handler = typed("hello");
        handler.move_cursor_to_start();
        let mut moved: usize = 0;
        while moved < position {
            handler.move_cursor_right();
            moved += 1;
        }
        assert_eq!(handler.cursor_position(), position);
        handler.move_cursor_to_end();
        assert_eq!(handler.cursor_position(), 5);
        assert_eq!(handler.buffer(), "hello");

        let mut moved: usize = 0;
        while moved < 5 - position {
            handler.move_cursor_left();
            moved += 1;
        }
        assert_eq!(handler.cursor_position(), position);
        handler.move_cursor_to_start();
        assert_eq!(handler.cursor_position(), 0);
        assert_eq!(handler.buffer(), "hello");
        position += 1;
    }
}

#[test]
fn start_and_end_on_empty_line() {
    let mut handler = InputHandler::new();
    handler.move_cursor_to_end();
    assert_eq!(handler.cursor_position(), 0);
    handler.move_cursor_to_start();
    assert_eq!(handler.cursor_position(), 0);
}

#[test]
fn toggle_mode_switches_and_keeps_the_line() {
    let mut handler = typed("abc");
    handler.move_cursor_left();
    handler.toggle_mode();
    assert_eq!(handler.mode(), Mode::Insert);
    assert_eq!(handler.buffer(), "abc");
    assert_eq!(handler.cursor_position(), 2);
}

#[test]
fn toggle_mode_twice_restores_everything() {
    let mut handler = typed("abc");
    handler.move_cursor_left();
    handler.toggle_mode();
    handler.toggle_mode();
    assert_eq!(handler.mode(), Mode::Normal);
    assert_eq!(handler.buffer(), "abc");
    assert_eq!(handler.cursor_position(), 2);
}

#[test]
fn clear_buffer_empties_the_line() {
    let mut handler = typed("abc");
    handler.toggle_mode();
    handler.clear_buffer();
    assert_eq!(handler.buffer(), "");
    assert_eq!(handler.cursor_position(), 0);
    assert_eq!(handler.mode(), Mode::Insert);
}

#[test]
fn take_buffer_returns_the_text_and_clears() {
    let mut handler = typed("SELECT * FROM t");
    handler.move_cursor_left();
    let text = handler.take_buffer();
    assert_eq!(text, "SELECT * FROM t");
    assert_eq!(handler.buffer(), "");
    assert_eq!(handler.cursor_position(), 0);
}

#[test]
fn take_buffer_twice_yields_empty_text() {
    let mut handler = typed("abc");
    let first = handler.take_buffer();
    assert_eq!(first, "abc");
    let second = handler.take_buffer();
    assert_eq!(second, "");
    assert_eq!(handler.buffer(), "");
    assert_eq!(handler.cursor_position(), 0);
}

#[test]
fn typing_after_take_buffer_starts_afresh() {
    let mut handler = typed("abc");
    handler.take_buffer();
    handler.insert_char('x');
    assert_eq!(handler.buffer(), "x");
    assert_eq!(handler.cursor_position(), 1);
}

#[test]
fn cursor_stays_within_the_line_through_edits() {
    let mut handler = InputHandler::new();
    let script = "iiLLdRiDdLLLLiRRRRdDdddddRLi";
    for step in script.chars() {
        match step {
            'i' => handler.insert_char('x'),
            'd' => handler.delete_char(),
            'D' => handler.delete_forward(),
            'L' => handler.move_cursor_left(),
            'R' => handler.move_cursor_right(),
            _ => unreachable!(),
        }
        assert!(handler.cursor_position() <= handler.len());
        assert_eq!(handler.buffer().chars().count(), handler.len());
    }
    assert_eq!(handler.buffer(), "x");
    assert_eq!(handler.cursor_position(), 1);
}
