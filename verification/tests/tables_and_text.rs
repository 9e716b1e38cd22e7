use arranger::general::grid_printer::{FileInfoPrinter, GridCharacter};
use arranger::general::table_display::{line_text, path_rows, split_lengths};
use arranger::general::terminal as literal;
use arranger::general::terminal::ANSICode as LiteralCode;
use arranger::terminal::ansi_sequences as built;
use arranger::terminal::ansi_sequences::ANSICode as BuiltCode;
use arranger::general::dynamic_table::DynamicTable;
use arranger::general::table_display::{split_by_length, TableCharacter};
use arranger::terminal::terminal::Terminal;
use arranger::utils::{ConfirmationPrompt, OptionsPrinter, StringOp};

#[test]
fn dynamic_table_with_one_parameter() {
    let mut t = DynamicTable::new(40, 1);
    t.set_header("Search");
    t.add_parameter("Path", "/tmp");
    t.print();
    let expected = String::from("\x1B[43m\x1B[30m      Search       \x1B[0m\n")
        + "┌────────┬────────┐\n"
        + "│  Path  │  /tmp  │\n"
        + "└────────┴────────┘\n";
    assert_eq!(t.take_output(), expected);
    assert_eq!(t.take_output(), "");
}

#[test]
fn dynamic_table_header_is_cut_to_width() {
    let mut t = DynamicTable::new(6, 0);
    t.set_header("Searching");
    t.print();
    let expected = String::from("\x1B[43m\x1B[30m   Sear..    \x1B[0m\n")
        + "┌─────┬─────┐\n"
        + "└─────┴─────┘\n";
    assert_eq!(t.take_output(), expected);
}

#[test]
fn split_by_length_cuts_pieces() {
    assert_eq!(split_by_length("abcdefg", 3), vec!["abc", "def", "g"]);
    assert_eq!(split_by_length("abcdef", 3), vec!["abc", "def"]);
    assert_eq!(split_by_length("", 3), Vec::<String>::new());
    assert_eq!(split_by_length("ab", 0), vec!["a", "b"]);
}

#[test]
fn table_characters() {
    assert_eq!(TableCharacter::TopLeft.as_char(), '┌');
    assert_eq!(TableCharacter::MidT.as_str(), "┼");
    assert_eq!(TableCharacter::Vertical.as_char(), '│');
}

#[test]
fn substring_by_characters() {
    assert_eq!(StringOp::substring("héllo", 1, 3), Some("él"));
    assert_eq!(StringOp::substring("abc", 1, 3), None);
}

#[test]
fn trim_with_ellipsis_cuts_long_text() {
    assert_eq!(StringOp::trim_with_ellipsis("abcdefgh", 5, 2), "abc..");
    assert_eq!(StringOp::trim_with_ellipsis("abc", 5, 2), "abc");
}

#[test]
fn split_retain_delim_left_rejoins() {
    let (a, b) = StringOp::split_retain_delim_left("name: value", ":").unwrap();
    assert_eq!(a, "name:");
    assert_eq!(b, " value");
    assert_eq!(format!("{}{}", a, b), "name: value");
    assert!(StringOp::split_retain_delim_left("abc", ":").is_none());
    assert!(StringOp::split_retain_delim_left("", ":").is_none());
}

#[test]
fn confirmation_prompt_decides() {
    let mut t = Terminal::new();
    ConfirmationPrompt::ask(&mut t);
    assert_eq!(t.take_output(), "\x1B[36m\nDo you want to continue? [y/N]: \x1B[0m");
    assert!(ConfirmationPrompt::process_input(&mut t, " Y \n"));
    assert_eq!(t.take_output(), "\x1B[32mContinuing...\n\n\x1B[0m\n");
    assert!(!ConfirmationPrompt::process_input(&mut t, "yes"));
    assert_eq!(t.take_output(), "\x1B[31mNot continuing...\n\x1B[0m\n");
    assert!(!ConfirmationPrompt::handle_error(&mut t, "closed"));
    assert_eq!(t.take_output(), "\x1B[31mFailed to read line: closed\n\x1B[0m\n");
}

#[test]
fn options_printer_colours_lines() {
    let mut p = OptionsPrinter::new();
    p.print("Usage: arranger\n  -h  Help\nOptions:");
    let expected = String::from("\x1B[31mUsage:\x1B[0m\x1B[37m arranger\x1B[0m\n")
        + "\x1B[37m  -h  Help\x1B[0m\n"
        + "\x1B[33mOptions:\x1B[0m\x1B[37m\x1B[0m\n";
    assert_eq!(p.take_output(), expected);
    p.print("arranger\nother");
    assert_eq!(p.take_output(), "\x1B[32marranger\x1B[0m\n");
}

#[test]
fn frame_lines_and_columns() {
    assert_eq!(line_text(10, '┌', '┬', '┐', true), "┌──┬──┬──┐");
    assert_eq!(line_text(10, '└', '┴', '┘', false), "└────────┘");
    assert_eq!(split_lengths(10), vec![2, 2, 2]);
    assert_eq!(path_rows("/a", 20, 1), "│ Path: [/a]       │ ");
}

#[test]
fn grid_header_is_centred() {
    let mut g = FileInfoPrinter::new(1);
    g.print_header("FILES", 20);
    assert_eq!(g.take_output(), "\x1B[43m\x1B[30m        FILES        \x1B[0m\n");
    assert_eq!(GridCharacter::MidLeftT.as_char(), '├');
}

#[test]
fn escape_sequences_agree_between_modules() {
    assert_eq!(BuiltCode::value(&built::ResetANSI), LiteralCode::value(&literal::ResetANSI));
    assert_eq!(BuiltCode::value(&built::RedANSI), LiteralCode::value(&literal::RedANSI));
    assert_eq!(BuiltCode::value(&built::YellowBackgroundANSI), LiteralCode::value(&literal::YellowBackgroundANSI));
    assert_eq!(BuiltCode::value(&built::UnderlineOnANSI), LiteralCode::value(&literal::UnderlineANSI));
    assert_eq!(BuiltCode::value(&built::BlinkOnANSI), LiteralCode::value(&literal::BlinkANSI));
    assert_eq!(LiteralCode::value(&literal::GreenANSI), "\x1B[32m");
    let combined = literal::YellowBackgroundANSI.combine(&literal::BlackANSI);
    assert_eq!(LiteralCode::value(&combined), "\x1B[43m\x1B[30m");
}

#[test]
fn test_function() {
    let path = std::path::Path::new("").to_path_buf();
    let metadata = path.metadata();
    if let Ok(metadata) = metadata {
        let file_info = arranger::search::info::FileInfo::new(
            path.to_string_lossy().into_owned(),
            format!("{} B", metadata.len()),
            String::from("N/A"),
            String::from("N/A"),
        );
        let mut file_info_printer = FileInfoPrinter::new(2);
        if file_info_printer.fits(80, &file_info) {
            file_info_printer.print(80, &file_info);
        }
        assert!(!file_info_printer.take_output().is_empty());
    }
}
