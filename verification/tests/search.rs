use arranger::commands::configuration::{SearchOption, SearchSort};
use arranger::commands::search::SearchCommand;
use arranger::general::table_display::FileInfoTable;
use arranger::search::file_search::{DirectoryFacts, EntryFacts, FileSearch};
use arranger::search::info::{FileInfo, FileKeys};

fn option(sort: Option<SearchSort>, limit: Option<usize>) -> SearchOption {
    SearchOption {
        filename: Some(String::from("main")),
        extensions: vec![String::from("rs")],
        excluded_dirs: vec![],
        sort,
        limit,
        regex: false,
        threads: 2,
    }
}

fn keys() -> Vec<FileKeys> {
    vec![
        FileKeys { size: 5, created: Some(10), modified: Some(1) },
        FileKeys { size: 1, created: None, modified: Some(7) },
        FileKeys { size: 5, created: Some(-5), modified: None },
        FileKeys { size: 3, created: Some(10), modified: Some(7) },
    ]
}

#[test]
fn sort_by_size_is_stable() {
    let c = SearchCommand::new(option(Some(SearchSort::SizeAsc), None));
    assert_eq!(c.sort_files(&keys()), vec![1, 3, 0, 2]);
    let d = SearchCommand::new(option(Some(SearchSort::SizeDesc), None));
    assert_eq!(d.sort_files(&keys()), vec![0, 2, 3, 1]);
}

#[test]
fn sort_by_times() {
    let c = SearchCommand::new(option(Some(SearchSort::CreatedAsc), None));
    assert_eq!(c.sort_files(&keys()), vec![2, 1, 0, 3]);
    let d = SearchCommand::new(option(Some(SearchSort::CreatedDesc), None));
    assert_eq!(d.sort_files(&keys()), vec![0, 3, 1, 2]);
    let m = SearchCommand::new(option(Some(SearchSort::ModifiedAsc), None));
    assert_eq!(m.sort_files(&keys()), vec![2, 0, 1, 3]);
    let md = SearchCommand::new(option(Some(SearchSort::ModifiedDesc), None));
    assert_eq!(md.sort_files(&keys()), vec![1, 3, 0, 2]);
}

#[test]
fn no_sort_keeps_order() {
    let c = SearchCommand::new(option(None, None));
    assert_eq!(c.sort_files(&keys()), vec![0, 1, 2, 3]);
    assert_eq!(c.sort_files(&Vec::new()), Vec::<usize>::new());
}

#[test]
fn limit_of_files_shown() {
    let c = SearchCommand::new(option(None, Some(2)));
    assert_eq!(c.files_shown(5), 2);
    assert_eq!(c.files_shown(1), 1);
    let d = SearchCommand::new(option(None, None));
    assert_eq!(d.files_shown(5), 5);
}

fn file(path: &str) -> FileInfo {
    FileInfo::new(
        String::from(path),
        String::from("1.00 KB"),
        String::from("2024-01-01 10:00:00"),
        String::from("2024-01-02 10:00:00"),
    )
}

#[test]
fn print_files_with_limit() {
    let files = vec![file("/p/main.rs"), file("/p/main_test.rs")];
    let mut c = SearchCommand::new(option(None, Some(1)));
    c.print_files(&files, 60);
    let mut table = FileInfoTable::new(2);
    assert!(table.fits(60, &files[0]));
    table.print_header("FILES", 60);
    table.print(60, &files[0]);
    let expected = table.take_output() + "\n";
    assert_eq!(c.take_output(), expected);
}

#[test]
fn print_files_none_found() {
    let mut c = SearchCommand::new(option(None, None));
    c.print_files(&Vec::new(), 60);
    assert_eq!(c.take_output(), "\x1B[31mNo files were found.\x1B[0m\n");
}

fn cell(s: &str, w: usize) -> String {
    format!(" {:<w$} ", s, w = w)
}

#[test]
fn search_parameters_table() {
    let c = SearchCommand::new(option(Some(SearchSort::SizeAsc), Some(5)));
    let mut table = c.search_parameters_table(60);
    assert!(table.printable());
    table.print();
    let params = [
        ("Filename", "\"main\""),
        ("Extensions", "[\"rs\"]"),
        ("Excluded Dirs", "[]"),
        ("Sorting", "SizeAsc"),
        ("Limit", "5"),
        ("Regex", "false"),
    ];
    let h = |l: char, m: char, r: char| format!("{}{}{}{}{}", l, "─".repeat(17), m, "─".repeat(13), r);
    let mut lines = vec![h('┌', '┬', '┐')];
    for (i, (a, v)) in params.iter().enumerate() {
        if i > 0 {
            lines.push(h('├', '┼', '┤'));
        }
        lines.push(format!("│ {} │ {} │", cell(a, 13), cell(v, 9)));
    }
    lines.push(h('└', '┴', '┘'));
    let expected = format!(
        "\x1B[43m\x1B[30m{}Search Parameters{}\x1B[0m\n{}\n",
        " ".repeat(8),
        " ".repeat(8),
        lines.join("\n")
    );
    assert_eq!(table.take_output(), expected);
}

#[test]
fn file_name_criteria() {
    let mut s = FileSearch::new();
    assert!(!s.is_exclusive_filename("/src/main.rs"));
    s.set_exclusive_filename("main");
    assert!(s.is_exclusive_filename("/src/Main.rs"));
    assert!(!s.is_exclusive_filename("/src/lib.rs"));
    assert!(s.is_exclusive_extension("/src/lib.rs"));
    s.set_exclusive_extensions(&vec![String::from(" RS "), String::from("toml"), String::from("rs")]);
    assert!(s.is_exclusive_extension("/a/b.RS"));
    assert!(s.is_exclusive_extension("/a/Cargo.toml"));
    assert!(!s.is_exclusive_extension("/a/b.txt"));
    assert!(!s.is_exclusive_extension("/a/Makefile"));
    assert!(s.evaluate_entry_criteria("/src/main.rs"));
    assert!(!s.evaluate_entry_criteria("/src/main.txt"));
    s.clear_exclusive_extensions();
    assert!(s.evaluate_entry_criteria("/src/main.txt"));
    s.clear_exclusive_filename();
    assert!(!s.evaluate_entry_criteria("/src/main.txt"));
}

#[test]
fn regex_criteria() {
    let mut s = FileSearch::new();
    assert!(s.set_exclusive_filename_regex("(").is_err());
    assert!(!s.is_exclusive_filename_regex("/x/main.rs"));
    assert_eq!(s.set_exclusive_filename_regex(r"^ma.n\.rs$"), Ok(()));
    assert!(s.is_exclusive_filename_regex("/x/Main.rs"));
    assert!(!s.is_exclusive_filename_regex("/x/domain.rs"));
    s.set_exclusive_filename("zzz");
    assert!(s.evaluate_entry_criteria("/x/main.rs"));
    s.clear_exclusive_filename_regex();
    assert!(!s.evaluate_entry_criteria("/x/main.rs"));
}

#[test]
fn excluded_directories() {
    let mut s = FileSearch::new();
    let dirs = vec![DirectoryFacts {
        path: String::from("target"),
        canonical: Some(String::from("/p/target")),
        is_file: false,
    }];
    assert_eq!(s.set_exclude_directories(&dirs), Ok(()));
    let inside = EntryFacts { path: String::from("/p/target/x.rs"), is_file: true, parent: Some(String::from("/p/target")) };
    assert!(s.is_excluded_directory(&inside));
    let itself = EntryFacts { path: String::from("/p/target"), is_file: false, parent: Some(String::from("/p")) };
    assert!(s.is_excluded_directory(&itself));
    let other = EntryFacts { path: String::from("/p/src"), is_file: false, parent: Some(String::from("/p")) };
    assert!(!s.is_excluded_directory(&other));
    let missing = vec![DirectoryFacts { path: String::from("nope"), canonical: None, is_file: false }];
    assert_eq!(s.set_exclude_directories(&missing), Err(String::from("Path provided [nope] cannot be found.")));
    assert!(s.is_excluded_directory(&inside));
    let a_file = vec![DirectoryFacts { path: String::from("x"), canonical: Some(String::from("/p/x")), is_file: true }];
    assert_eq!(s.set_exclude_directories(&a_file), Err(String::from("Path provided is a file, not a directory.")));
    s.clear_exclude_directories();
    assert!(!s.is_excluded_directory(&inside));
}

#[test]
fn search_roots_and_walk_mode() {
    let mut s = FileSearch::new();
    assert_eq!(s.get_root(), None);
    s.set_root("/p");
    assert_eq!(s.get_root(), Some("/p"));
    s.clear_root();
    assert_eq!(s.get_root(), None);
    assert!(!s.quits_directory_on_match());
    s.set_quit_directory_on_match(true);
    assert!(s.quits_directory_on_match());
}

#[test]
fn search_command_sets_criteria() {
    let mut c = SearchCommand::new(option(None, None));
    let mut s = FileSearch::new();
    let missing = vec![DirectoryFacts { path: String::from("x"), canonical: None, is_file: false }];
    assert!(c.set_file_search_parameters("/p", &mut s, &missing).is_err());
    assert_eq!(
        c.take_output(),
        "\x1B[31mDirectory Exclusion Error: \x1B[0m\x1B[37mPath provided [x] cannot be found.\x1B[0m\n"
    );
    assert_eq!(c.set_file_search_parameters("/p", &mut s, &Vec::new()), Ok(()));
    assert_eq!(s.get_root(), Some("/p"));
    assert!(s.evaluate_entry_criteria("/p/main.rs"));
    assert!(!s.evaluate_entry_criteria("/p/main.py"));
    let mut regex_option = option(None, None);
    regex_option.filename = Some(String::from("("));
    regex_option.regex = true;
    let mut r = SearchCommand::new(regex_option);
    assert!(r.set_file_search_filename(&mut s).is_err());
    assert!(r.take_output().starts_with("\x1B[31m"));
}

#[test]
fn file_name_start_ignores_case_of_both() {
    let mut s = FileSearch::new();
    s.set_exclusive_filename("Some");
    assert!(s.is_exclusive_filename("dir/Some_file.txt"));
    assert!(s.is_exclusive_filename("dir/some_other.txt"));
    assert!(!s.is_exclusive_filename("dir/other.txt"));
}
