use arranger::search::file::{is_same_directory, FileSearch};
use arranger::search::file_search::{DirectoryFacts, EntryFacts};
use arranger::search::progress::{get_path_string, ProgressMetrics, SearchMetrics};

fn strings(items: &[&str]) -> Vec<String> {
    items.iter().map(|s| s.to_string()).collect()
}

#[test]
fn names_search_without_criteria_accepts_every_file() {
    let search = FileSearch::new();
    assert!(search.evaluate_entry_criteria("/tmp/a/Readme.md"));
    assert!(search.evaluate_entry_criteria("/tmp/a/no_extension"));
    assert_eq!(search.get_root(), None);
    assert!(!search.quits_directory_on_match());
}

#[test]
fn names_search_matches_whole_file_names_ignoring_case() {
    let mut search = FileSearch::new();
    search.set_exclusive_filenames(&strings(&["Cargo.TOML", "readme.md"]));
    assert!(search.is_exclusive_filename("/work/cargo.toml"));
    assert!(search.is_exclusive_filename("/work/README.MD"));
    assert!(!search.is_exclusive_filename("/work/cargo.tomlx"));
    assert!(!search.is_exclusive_filename("/work/cargo"));
    assert!(search.evaluate_entry_criteria("/work/Cargo.toml"));
    assert!(!search.evaluate_entry_criteria("/work/Cargo.lock"));
}

#[test]
fn names_search_matches_file_stems_ignoring_case() {
    let mut search = FileSearch::new();
    search.set_exclusive_file_stems(&strings(&["MAIN"]));
    assert!(search.is_exclusive_file_stem("/src/main.rs"));
    assert!(search.is_exclusive_file_stem("/src/Main.py"));
    assert!(!search.is_exclusive_file_stem("/src/main2.rs"));
    assert!(!search.is_exclusive_file_stem("/src/lib.rs"));
}

#[test]
fn names_search_stem_regex() {
    let mut search = FileSearch::new();
    assert!(search.is_exclusive_file_stem_regex("/any/thing.txt"));
    assert_eq!(search.set_exclusive_file_stem_regex("^test_[0-9]+$"), Ok(()));
    assert!(search.is_exclusive_file_stem_regex("/x/TEST_12.rs"));
    assert!(!search.is_exclusive_file_stem_regex("/x/test_a.rs"));
    assert!(search.set_exclusive_file_stem_regex("(").is_err());
    assert!(search.is_exclusive_file_stem_regex("/x/test_7.log"));
}

#[test]
fn names_search_extensions_trimmed_and_lowercased() {
    let mut search = FileSearch::new();
    search.set_exclusive_extensions(&strings(&[" RS ", "toml"]));
    assert!(search.is_exclusive_extension("/a/b.rs"));
    assert!(search.is_exclusive_extension("/a/c.TOML"));
    assert!(!search.is_exclusive_extension("/a/d.py"));
    assert!(!search.is_exclusive_extension("/a/noext"));
}

#[test]
fn names_search_all_criteria_must_hold() {
    let mut search = FileSearch::new();
    search.set_exclusive_file_stems(&strings(&["main"]));
    search.set_exclusive_extensions(&strings(&["rs"]));
    assert!(search.evaluate_entry_criteria("/p/main.rs"));
    assert!(!search.evaluate_entry_criteria("/p/main.py"));
    assert!(!search.evaluate_entry_criteria("/p/lib.rs"));
}

#[test]
fn names_search_excluded_directories() {
    let mut search = FileSearch::new();
    let dirs = vec![DirectoryFacts {
        path: "target".to_string(),
        canonical: Some("/w/target".to_string()),
        is_file: false,
    }];
    assert_eq!(search.set_exclude_directories(&dirs), Ok(()));
    let file_inside = EntryFacts {
        path: "/w/target/x.o".to_string(),
        is_file: true,
        parent: Some("/w/target".to_string()),
    };
    let dir_itself = EntryFacts { path: "/w/target".to_string(), is_file: false, parent: Some("/w".to_string()) };
    let elsewhere = EntryFacts { path: "/w/src".to_string(), is_file: false, parent: Some("/w".to_string()) };
    assert!(search.is_excluded_directory(&file_inside));
    assert!(search.is_excluded_directory(&dir_itself));
    assert!(!search.is_excluded_directory(&elsewhere));
    assert!(is_same_directory(&file_inside, "/w/target"));
    assert!(!is_same_directory(&elsewhere, "/w/target"));
}

#[test]
fn names_search_exclusion_errors() {
    let mut search = FileSearch::new();
    let missing = vec![DirectoryFacts { path: "nowhere".to_string(), canonical: None, is_file: false }];
    assert_eq!(
        search.set_exclude_directories(&missing),
        Err("Path provided [nowhere] cannot be found.".to_string())
    );
    let file = vec![DirectoryFacts {
        path: "a.txt".to_string(),
        canonical: Some("/w/a.txt".to_string()),
        is_file: true,
    }];
    assert_eq!(
        search.set_exclude_directories(&file),
        Err("Path provided is a file, not a directory.".to_string())
    );
}

#[test]
fn names_search_root_and_quit_setting() {
    let mut search = FileSearch::new();
    search.set_root("/data");
    search.set_quit_directory_on_match(true);
    assert_eq!(search.get_root(), Some("/data"));
    assert!(search.quits_directory_on_match());
}

#[test]
fn progress_path_string_drops_verbatim_prefix() {
    assert_eq!(get_path_string(r"\\?\C:\Users\me"), r"C:\Users\me");
    assert_eq!(get_path_string("/home/me"), "/home/me");
    assert_eq!(get_path_string(r"\\?"), r"\\?");
    assert_eq!(get_path_string(r"\\?\"), "");
}

#[test]
fn progress_metrics_count_and_wrap() {
    let mut metrics = ProgressMetrics::new();
    assert_eq!(metrics.get_search_count(), 0);
    metrics.increment_search_count();
    metrics.increment_search_count();
    metrics.increment_match_count();
    metrics.add_search_bytes(1024);
    metrics.add_search_bytes(10);
    metrics.set_threads(4);
    assert_eq!(metrics.get_search_count(), 2);
    assert_eq!(metrics.get_match_count(), 1);
    assert_eq!(metrics.get_search_bytes(), 1034);
    assert_eq!(metrics.get_threads(), 4);
    metrics.add_search_bytes(usize::MAX);
    assert_eq!(metrics.get_search_bytes(), 1033);
}

#[test]
fn search_metrics_duration_freezes_at_terminate() {
    let mut metrics = SearchMetrics::new(100);
    assert_eq!(metrics.get_duration(5), 5);
    assert_eq!(metrics.get_duration(9), 9);
    metrics.terminate();
    assert_eq!(metrics.get_duration(50), 9);
    metrics.set_search_path(r"\\?\D:\data");
    assert_eq!(metrics.get_search_path(), r"D:\data");
    assert!(metrics.display_due(100));
    assert!(!metrics.display_due(99));
    metrics.get_metrics_mut().increment_match_count();
    assert_eq!(metrics.get_metrics().get_match_count(), 1);
}
