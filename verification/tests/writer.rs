use arranger::general::writer::{Console, ConsoleWriter};

#[test]
fn console_cursor_sequences() {
    let mut c = Console::new();
    c.hide_cursor();
    c.show_cursor();
    c.blink_cursor_on();
    c.blink_cursor_off();
    c.enable_line_wrapping();
    c.disable_line_wrapping();
    assert_eq!(c.take_output(), "\x1B[?25l\x1B[?25h\x1B[?12h\x1B[?12l\x1B[?7h\x1B[?7l");
    assert_eq!(c.take_output(), "");
}

#[test]
fn console_moves_make_new_rows_with_line_breaks() {
    let mut c = Console::new();
    c.move_cursor_down(2);
    assert_eq!(c.take_output(), "\n\n");
    c.move_cursor_up(1);
    assert_eq!(c.take_output(), "\x1B[1A");
    c.move_to(3, 2);
    assert_eq!(c.take_output(), "\x1B[1B\x1B[4G");
    c.move_cursor_up(5);
    c.move_to(0, 0);
    assert_eq!(c.take_output(), "\x1B[5A\x1B[1G");
}

#[test]
fn console_writes_and_clears() {
    let mut c = Console::new();
    c.write_string("ab\nc");
    c.write_character('d');
    assert_eq!(c.take_output(), "ab\ncd");
    c.clear_right_of(1, 1);
    assert_eq!(c.take_output(), "\x1B[2G\x1B[0K");
    c.clear_row(0);
    assert_eq!(c.take_output(), "\x1B[1A\x1B[1G\x1B[2K");
    c.move_to_new_row();
    assert_eq!(c.take_output(), "\n\x1B[1G");
}

#[test]
fn writer_starts_without_line_wrapping() {
    let mut w = ConsoleWriter::new();
    assert_eq!(w.take_output(), "\x1B[?7l");
}

#[test]
fn writer_draws_each_character_once() {
    let mut w = ConsoleWriter::new();
    w.take_output();
    w.write("ab");
    assert_eq!(w.take_output(), "\x1B[?25l\x1B[1Ga\x1B[2Gb\x1B[3G\x1B[0K");
}

#[test]
fn writer_redraws_only_changed_characters() {
    let mut w = ConsoleWriter::new();
    w.write("ab");
    w.take_output();
    w.write("ac");
    assert_eq!(w.take_output(), "\x1B[?25l\x1B[2Gc\x1B[3G\x1B[0K");
}

#[test]
fn writer_same_text_writes_no_character() {
    let mut w = ConsoleWriter::new();
    w.write("ab");
    w.take_output();
    w.write("ab");
    assert_eq!(w.take_output(), "\x1B[?25l\x1B[3G\x1B[0K");
}

#[test]
fn writer_adds_rows_and_clears_rows_no_longer_shown() {
    let mut w = ConsoleWriter::new();
    w.write("ac");
    w.take_output();
    w.write("x\ny");
    assert_eq!(w.take_output(), "\x1B[?25l\x1B[1Gx\x1B[2G\x1B[0K\n\x1B[1Gy\x1B[2G\x1B[0K");
    w.write("z");
    assert_eq!(w.take_output(), "\x1B[?25l\x1B[1A\x1B[1Gz\x1B[2G\x1B[0K\x1B[1B\x1B[1G\x1B[2K");
}

#[test]
fn writer_clear_all() {
    let mut w = ConsoleWriter::new();
    w.write("ab");
    w.take_output();
    w.clear_all();
    assert_eq!(w.take_output(), "\x1B[1G\x1B[2K");
    w.write("ab");
    assert_eq!(w.take_output(), "\x1B[?25l\x1B[1Ga\x1B[2Gb\x1B[3G\x1B[0K");
}
