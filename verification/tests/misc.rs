use arranger::ansi_support::AnsiSupport;
use arranger::commands::configuration::{parse_search_option_limit, SearchOption, SearchSort};
use arranger::commands::search::SearchCommand;
use arranger::general::http::HTTP;
use arranger::rust::tasks::{
    add_run_task, default_tasks_json, is_task_label_present, run_task_json, RustVSCodeTask, TaskAction, TaskEvent,
};
use arranger::search::formatters::{size_scale, time_scale};
use arranger::shell::utils::{CommandE, CommandR};
use arranger::threading::thread_structs::{ChannelCounts, RwUsize};

#[test]
fn size_scale_picks_unit() {
    assert_eq!(size_scale(0), (1, "B"));
    assert_eq!(size_scale(1024), (1, "B"));
    assert_eq!(size_scale(1025), (1024, "KB"));
    assert_eq!(size_scale(1 << 20), (1 << 20, "MB"));
    assert_eq!(size_scale(3 << 30), (1 << 30, "GB"));
    assert_eq!(size_scale(1 << 40), (1 << 40, "TB"));
}

#[test]
fn time_scale_picks_unit() {
    assert_eq!(time_scale(999), (1, "ns"));
    assert_eq!(time_scale(1_000), (1_000, "µs"));
    assert_eq!(time_scale(1_500_000), (1_000_000, "ms"));
    assert_eq!(time_scale(2_000_000_000), (1_000_000_000, "s"));
}

#[test]
fn file_name_from_url() {
    let http = HTTP::new();
    assert_eq!(
        http.get_file_name("https://www.python.org/ftp/python/3.12.0/Python-3.12.0.tgz"),
        Ok(String::from("Python-3.12.0.tgz"))
    );
    assert_eq!(
        http.get_file_name("https://example.com/"),
        Err(String::from("Failed to get file name from URL"))
    );
    assert_eq!(
        http.get_file_name("data:text/plain,Hello"),
        Err(String::from("Failed to get file name from URL"))
    );
    assert_eq!(http.get_file_name("no scheme"), Err(String::from("relative URL without a base")));
}

#[test]
fn file_name_from_path() {
    let http = HTTP::new();
    assert_eq!(http.file_name_from_path("/a/b.txt"), Ok(String::from("b.txt")));
    assert_eq!(http.file_name_from_path("/a/"), Err(String::from("Failed to get file name from URL")));
    assert_eq!(http.file_name_from_path("a/b"), Err(String::from("Failed to get file name from URL")));
}

#[test]
fn command_response_from_bytes() {
    let _runner = CommandE::new();
    let r = CommandR::new(b"out\n".to_vec(), Vec::new(), Some(0)).unwrap();
    assert_eq!(r.get_stdout(), "out\n");
    assert_eq!(r.get_stderr(), "");
    assert_eq!(r.get_status(), Some(0));
    assert!(CommandR::new(vec![0xff], Vec::new(), Some(1)).is_none());
    assert!(CommandR::new(Vec::new(), vec![0xc3], None).is_none());
}

#[test]
fn counter_never_below_zero() {
    let mut c = RwUsize::new();
    assert_eq!(c.decrement(), Err("Value is already 0"));
    c.increment();
    c.increment();
    assert_eq!(c.decrement(), Ok(()));
    assert_eq!(c.get_value(), 1);
    c.add(5);
    assert_eq!(c.get_value(), 6);
}

#[test]
fn ansi_support_enables() {
    assert!(AnsiSupport::enable().is_ok());
}

#[test]
fn task_label_search() {
    let text = r#"{"version": "2.0.0", "tasks": [{"label": "build"}, {"label": 3}, {"label": "rust: cargo run"}]}"#;
    assert_eq!(is_task_label_present(text, "rust: cargo run"), Ok(true));
    assert_eq!(is_task_label_present(text, "test"), Ok(false));
    assert_eq!(is_task_label_present(r#"{"tasks": {"label": "build"}}"#, "build"), Ok(false));
    assert_eq!(is_task_label_present(r#"{"version": "2.0.0"}"#, "build"), Ok(false));
    assert!(is_task_label_present("not json", "build").is_err());
}

#[test]
fn run_task_added_once() {
    let text = r#"{"version": "2.0.0", "tasks": [{"label": "build", "type": "shell"}]}"#;
    let added = add_run_task(text).unwrap().unwrap();
    assert_eq!(is_task_label_present(&added, "rust: cargo run"), Ok(true));
    assert_eq!(is_task_label_present(&added, "build"), Ok(true));
    assert!(added.contains("cargo run --release"));
    assert!(added.contains("\"version\": \"2.0.0\""));
    assert_eq!(add_run_task(&added), Ok(None));
    assert!(add_run_task("{").is_err());
    assert!(run_task_json().contains("\"label\": \"rust: cargo run\""));
}

#[test]
fn run_task_new_file() {
    let mut t = RustVSCodeTask::new();
    assert_eq!(t.path(), "./.vscode/tasks.json");
    assert_eq!(t.directory(), "./.vscode/");
    assert_eq!(t.generate_run_task(), TaskAction::CheckDirectory);
    assert_eq!(t.next(TaskEvent::DirectoryChecked(false)), TaskAction::CreateDirectory);
    assert_eq!(t.take_output(), "\x1B[36m[Creating Directory Structure]\x1B[0m\n");
    assert_eq!(t.next(TaskEvent::DirectoryCreated(Ok(()))), TaskAction::CheckFile);
    assert_eq!(t.next(TaskEvent::FileChecked(false)), TaskAction::WriteFile);
    assert_eq!(t.next(TaskEvent::FileWritten(Ok(String::from("/p/tasks.json")))), TaskAction::Done);
    assert_eq!(
        t.take_output(),
        "\x1B[32mNew tasks file has been created.\x1B[0m\n\x1B[32mFile: \x1B[0m\x1B[37m/p/tasks.json\x1B[0m\n"
    );
}

#[test]
fn run_task_already_present() {
    let mut t = RustVSCodeTask::new();
    t.generate_run_task();
    assert_eq!(t.next(TaskEvent::DirectoryChecked(true)), TaskAction::CheckFile);
    assert_eq!(t.next(TaskEvent::FileChecked(true)), TaskAction::ReadFile);
    let text = String::from(r#"{"tasks": [{"label": "rust: cargo run"}]}"#);
    assert_eq!(t.next(TaskEvent::FileRead(Ok(text))), TaskAction::Done);
    assert_eq!(t.take_output(), "\x1B[31mRun task already exists in [tasks.json].\x1B[0m\n");
}

#[test]
fn run_task_added() {
    let mut t = RustVSCodeTask::new();
    t.generate_run_task();
    t.next(TaskEvent::DirectoryChecked(true));
    t.next(TaskEvent::FileChecked(true));
    assert_eq!(t.next(TaskEvent::FileRead(Ok(String::from(r#"{"tasks": []}"#)))), TaskAction::AddTask);
    assert_eq!(is_task_label_present(t.pending_text(), "rust: cargo run"), Ok(true));
    assert_eq!(t.next(TaskEvent::TaskAdded(Ok(()))), TaskAction::Done);
    assert_eq!(t.take_output(), "\x1B[32mRun task has been added to [tasks.json]\x1B[0m\n");
}

#[test]
fn run_task_errors_end_the_generation() {
    let mut t = RustVSCodeTask::new();
    t.generate_run_task();
    t.next(TaskEvent::DirectoryChecked(false));
    t.take_output();
    assert_eq!(t.next(TaskEvent::DirectoryCreated(Err(String::from("denied")))), TaskAction::Done);
    assert_eq!(t.take_output(), "\x1B[31mError: \x1B[0m\x1B[37mdenied\x1B[0m\n");
    assert_eq!(t.next(TaskEvent::FileChecked(true)), TaskAction::Done);
    assert_eq!(t.take_output(), "");
    let mut u = RustVSCodeTask::new();
    u.generate_run_task();
    u.next(TaskEvent::DirectoryChecked(true));
    u.next(TaskEvent::FileChecked(true));
    assert_eq!(u.next(TaskEvent::FileRead(Ok(String::from("{ broken")))), TaskAction::Done);
    assert!(u.take_output().starts_with("\x1B[31mError: \x1B[0m"));
}

#[test]
fn search_sort_names() {
    assert_eq!(SearchSort::from_str("size_asc"), Ok(SearchSort::SizeAsc));
    assert_eq!(SearchSort::from_str("modified_desc"), Ok(SearchSort::ModifiedDesc));
    assert_eq!(SearchSort::from_str("size"), Err(String::from("Invalid Sorting Option")));
    assert_eq!(SearchSort::CreatedAsc.name(), "CreatedAsc");
    let s: SearchSort = "created_desc".parse().unwrap();
    assert_eq!(s, SearchSort::CreatedDesc);
}

#[test]
fn search_limit_option() {
    assert_eq!(parse_search_option_limit("10"), Ok(10));
    assert_eq!(parse_search_option_limit("0"), Err("value must be greater than 0"));
    assert_eq!(parse_search_option_limit("ten"), Err("invalid digit found in string"));
}

#[test]
fn search_command_messages() {
    let option = SearchOption {
        filename: Some(String::from("main")),
        extensions: vec![String::from("rs")],
        excluded_dirs: vec![],
        sort: None,
        limit: None,
        regex: false,
        threads: 1,
    };
    let mut c = SearchCommand::new(option);
    assert_eq!(c.get_filename_or_default(), "main");
    c.print_no_files();
    assert_eq!(c.take_output(), "\x1B[31mNo files were found.\x1B[0m\n");
}

#[test]
fn default_tasks_file_text() {
    let expected = "{\n  \"version\": \"2.0.0\",\n  \"tasks\": [\n    {\n      \"type\": \"shell\",\n      \"command\": \"cargo run --release\",\n      \"problemMatcher\": [\n        \"$rustc\"\n      ],\n      \"label\": \"rust: cargo run\",\n      \"group\": {\n        \"kind\": \"build\",\n        \"isDefault\": true\n      }\n    }\n  ]\n}";
    assert_eq!(default_tasks_json(), expected);
    let value: serde_json::Value = serde_json::from_str(default_tasks_json()).unwrap();
    assert_eq!(serde_json::to_string_pretty(&value).unwrap().len(), expected.len());
    assert_eq!(is_task_label_present(default_tasks_json(), "rust: cargo run"), Ok(true));
    let mut t = RustVSCodeTask::new();
    t.generate_run_task();
    t.next(TaskEvent::DirectoryChecked(true));
    assert_eq!(t.next(TaskEvent::FileChecked(false)), TaskAction::WriteFile);
    assert_eq!(t.pending_text(), expected);
}

#[test]
fn run_task_added_to_files_of_other_shapes() {
    assert_eq!(add_run_task("[]"), Ok(Some(String::from("[]"))));
    assert_eq!(add_run_task("{\"tasks\": 3}"), Ok(Some(String::from("{\n  \"tasks\": 3\n}"))));
    assert_eq!(add_run_task("{}"), Ok(Some(String::from("{}"))));
}

#[test]
fn channel_counts_follow_sends_and_receives() {
    let mut c = ChannelCounts::new();
    c.record_send(true);
    c.record_send(true);
    c.record_send(false);
    assert_eq!(c.get_send_buffer(), 2);
    assert_eq!(c.get_receive_buffer(), 2);
    c.record_receive(true);
    c.record_receive(false);
    assert_eq!(c.get_receive_buffer(), 1);
    assert_eq!(c.get_send_buffer(), 2);
}
