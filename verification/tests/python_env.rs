use arranger::drafts::hashed_deque::HashedDeque;
use arranger::general::path::WPath;
use arranger::general::shell::CommandResponse;
use arranger::parsers::cfg_parser::{CFGLine, CFGParser};
use arranger::python::version::{ParseVersionError, PythonVersion};
use arranger::python::virtualenv::{VirtualEnvCFG, VirtualEnvSearch};
use arranger::terminal::terminal::Terminal;

const PYVENV: &str = "home = /usr/bin\n\
implementation = CPython\n\
version_info = 3.11.4.final.0\n\
virtualenv = 20.24.1\n\
include-system-site-packages = false\n\
base-prefix = /usr\n\
base-exec-prefix = /usr\n\
base-executable = /usr/bin/python3.11\n";

#[test]
fn cfg_lines() {
    let parser = CFGParser::new();
    let lines = parser.parse("home = /usr/bin\nno equals here\n key=a b=c \n");
    assert_eq!(lines.len(), 2);
    assert_eq!(lines[0].get_name(), "home");
    assert_eq!(lines[0].get_setting(), "/usr/bin");
    assert_eq!(lines[1].get_name(), "key");
    assert_eq!(lines[1].get_setting(), "abc");
    let l = CFGLine::new(String::from("a"), String::from("b"));
    assert_eq!((l.get_name(), l.get_setting()), ("a", "b"));
}

#[test]
fn virtualenv_configuration() {
    let lines = CFGParser::new().parse(PYVENV);
    let cfg_file = WPath::from_string("/venv/pyvenv.cfg");
    let cfg = VirtualEnvCFG::new(cfg_file, &lines).unwrap();
    let dir = cfg.get_environment_directory(true, Some(String::from("/venv")));
    assert_eq!(dir.get_path_buf(), "/venv");
    let same = cfg.get_environment_directory(false, Some(String::from("/venv")));
    assert_eq!(same.get_path_buf(), "/venv/pyvenv.cfg");
    let exe = cfg.get_python_executable(true, Some(String::from("/venv")));
    assert_eq!(exe.get_path_buf(), "/venv/Scripts/python.exe");
}

#[test]
fn virtualenv_configuration_rejects_unknown_key() {
    let text = String::from(PYVENV) + "prompt = mine\n";
    let lines = CFGParser::new().parse(&text);
    assert!(VirtualEnvCFG::new(WPath::from_string("/venv/pyvenv.cfg"), &lines).is_none());
    let bad_bool = PYVENV.replace("= false", "= maybe");
    let lines = CFGParser::new().parse(&bad_bool);
    assert!(VirtualEnvCFG::new(WPath::from_string("/venv/pyvenv.cfg"), &lines).is_none());
}

#[test]
fn boolean_settings() {
    assert_eq!(VirtualEnvCFG::parse_boolean_string("true"), Some(true));
    assert_eq!(VirtualEnvCFG::parse_boolean_string("false"), Some(false));
    assert_eq!(VirtualEnvCFG::parse_boolean_string("True"), None);
}

#[test]
fn environment_search_report() {
    let search = VirtualEnvSearch::new(false);
    assert!(search.quit_directory_on_match());
    assert!(!VirtualEnvSearch::new(true).quit_directory_on_match());
    let mut t = Terminal::new();
    assert!(!search.confirm_search(&Vec::new(), &mut t));
    assert_eq!(
        t.take_output(),
        "\x1B[31m\nNo environments were found.\nTry creating one with: arranger python venv\n\x1B[0m\n"
    );
    let found = vec![Some(String::from("/work/venv")), None];
    assert!(search.confirm_search(&found, &mut t));
    assert_eq!(
        t.take_output(),
        "\x1B[32m\nFound Environments:\x1B[0m\n\x1B[36mPath: \x1B[0m\x1B[37m[/work/venv]\x1B[0m\n"
    );
}

#[test]
fn python_version_parsing() {
    let v = PythonVersion::from_str("3.9").unwrap();
    assert_eq!(v.get_3p_version(), (3, 9, 0));
    assert_eq!(v.get_folder_name(), "Python39\\");
    assert_eq!(v.get_version_string(), "3.9");
    assert_eq!(PythonVersion::new(3, 12, 1).get_version(), (3, 12));
    let e = PythonVersion::from_str("3").unwrap_err();
    assert!(matches!(e, ParseVersionError::WrongFormat));
    assert_eq!(e.describe(), "expected a version in this format => x.y");
    let p = PythonVersion::from_str("3.nine").unwrap_err();
    assert_eq!(p.describe(), "invalid digit found in string");
}

#[test]
fn paths_follow_what_the_file_system_says() {
    let mut p = WPath::from_string("./venv/pyvenv.cfg");
    assert_eq!(p.as_canonical(Err(String::from("missing"))).err(), Some(String::from("missing")));
    assert_eq!(p.get_canonical_string(Ok(String::from("\\\\?\\C:\\venv\\pyvenv.cfg"))), Some(String::from("C:\\venv\\pyvenv.cfg")));
    assert_eq!(p.to_canonical(Ok(String::from("/abs/venv/pyvenv.cfg"))), None);
    assert_eq!(p.get_path_buf(), "/abs/venv/pyvenv.cfg");
    assert_eq!(p.get_canonical_string(Err(String::from("ignored"))), Some(String::from("/abs/venv/pyvenv.cfg")));
    p.to_directory(true, Some(String::from("/abs/venv")));
    assert_eq!(p.get_path_buf(), "/abs/venv");
    assert_eq!(p.duplicate().as_directory(false, None).get_path_buf(), "/abs/venv");
    let mut q = WPath::from_string("x");
    assert_eq!(q.to_canonical(Err(String::from("gone"))), Some(String::from("gone")));
    assert_eq!(q.get_path_buf(), "x");
}

#[test]
fn command_response_printing() {
    let mut ok = CommandResponse::new(b"  done \n".to_vec(), Vec::new(), Some(0)).unwrap();
    assert_eq!(ok.get_stdout(), "done");
    assert!(ok.success());
    ok.print();
    assert_eq!(ok.take_output(), "\x1B[32mdone\x1B[0m\n\x1B[33m----------\x1B[0m\n");
    let mut failed = CommandResponse::new(Vec::new(), b"boom\n".to_vec(), Some(2)).unwrap();
    assert!(!failed.success());
    assert_eq!(failed.get_status(), Some(2));
    failed.print();
    assert_eq!(failed.take_output(), "\x1B[31mboom\x1B[0m\n\x1B[33m----------\x1B[0m\n");
    assert!(CommandResponse::new(vec![0xff, 0xfe], Vec::new(), Some(0)).is_none());
}

#[test]
fn hashed_deque_holds_each_value_once() {
    let mut d: HashedDeque<i32> = HashedDeque::new();
    d.push_back(1);
    d.push_back(2);
    d.push_front(0);
    d.push_back(1);
    assert_eq!(d.len(), 3);
    assert!(d.contains(&2));
    let mut other: HashedDeque<i32> = HashedDeque::new();
    other.push_back(2);
    other.push_back(3);
    d.append(&mut other);
    assert_eq!(other.len(), 0);
    assert_eq!(d.len(), 4);
    assert_eq!(d.pop_front(), Some(0));
    assert_eq!(d.pop_back(), Some(3));
    assert_eq!(d.pop_back(), Some(2));
    assert_eq!(d.pop_back(), Some(1));
    assert_eq!(d.pop_back(), None);
}

#[test]
fn virtualenv_configuration_readable() {
    let complete = CFGParser::new().parse(PYVENV);
    assert!(VirtualEnvCFG::readable(&complete));
    let partial = CFGParser::new().parse("home = /usr/bin\n");
    assert!(!VirtualEnvCFG::readable(&partial));
    let rejected = CFGParser::new().parse("home = /usr/bin\nprompt = x\n");
    assert!(VirtualEnvCFG::readable(&rejected));
    assert!(VirtualEnvCFG::new(WPath::from_string("/v/pyvenv.cfg"), &rejected).is_none());
}

#[test]
fn cfg_line_debug_text_quotes_name_and_setting() {
    let line = CFGLine::new("home".to_string(), "/usr/bin".to_string());
    assert_eq!(line.debug_text(), "Name: \"home\" | Setting: \"/usr/bin\"");
}
