use arranger::commands::configuration::{FixVirtualEnvOption, RustVSCodeTasksOption, VirtualEnvExecuteOption};
use arranger::commands::python::{PythonExecuteCommand, PythonFixEnvCommand};
use arranger::commands::rust::RustVSCodeTaskCommand;
use arranger::general::path::WPath;
use arranger::general::shell::CommandResponse;
use arranger::general::terminal::Terminal;
use arranger::general::version::SemanticVersion;
use arranger::python::pip::{Pip, PipShow};
use arranger::python::python::PythonEnvironment;
use arranger::python::virtualenv::{VenvAction, VenvEvent, VirtualEnv};
use arranger::search::info::FileInfo;

fn pip() -> Pip {
    let r = CommandResponse::new(b"pip 23.0 from /x".to_vec(), Vec::new(), Some(0)).unwrap();
    let mut t = Terminal::new();
    Pip::new(Some(&r), &mut t).unwrap()
}

#[test]
fn python_environment_needs_folder_and_pip() {
    let version = SemanticVersion::from_string("3.11.4").unwrap();
    let mut t = Terminal::new();
    assert!(PythonEnvironment::new(None, &version, Some(pip()), &mut t).is_none());
    assert_eq!(t.take_output(), "\x1B[31mUnable to retrieve Python 3.11.\x1B[0m\n");
    let folder = WPath::from_string("/opt/Python311");
    assert!(PythonEnvironment::new(Some(folder.duplicate()), &version, None, &mut t).is_none());
    let env = PythonEnvironment::new(Some(folder), &version, Some(pip()), &mut t).unwrap();
    assert_eq!(t.take_output(), "");
    assert_eq!(env.get_python_version().get_string(), "3.11.4");
    assert_eq!(env.get_pip().get_pip_version().get_string(), "23.0.0");
    assert_eq!(env.get_python_executable().get_path_buf(), "/opt/Python311/python.exe");
    let custom = PythonEnvironment::from_custom_path(
        &WPath::from_string("/p"),
        &WPath::from_string("/p/bin/python"),
        &version,
        Some(pip()),
    )
    .unwrap();
    assert_eq!(custom.duplicate().get_python_executable().get_path_buf(), "/p/bin/python");
}

#[test]
fn python_folders() {
    let version = SemanticVersion::from_string("3.9.1").unwrap();
    let path = PythonEnvironment::get_python_path(&WPath::from_string("/base"), &version);
    assert_eq!(path.get_path_buf(), "/base/Python39\\");
}

#[test]
fn virtual_environment_arguments_and_messages() {
    let version = SemanticVersion::from_string("3.11.4").unwrap();
    let mut t = Terminal::new();
    let env = PythonEnvironment::new(Some(WPath::from_string("/py")), &version, Some(pip()), &mut t).unwrap();
    let mut venv = VirtualEnv::new(&env);
    assert_eq!(venv.get_environment_name(), "pyenv311");
    assert_eq!(venv.create_environment(), vec!["-m", "virtualenv", "pyenv311"]);
    assert_eq!(
        venv.create_environment_in_path(Some(String::from("/work/env"))),
        Some(vec![String::from("-m"), String::from("virtualenv"), String::from("/work/env")])
    );
    assert_eq!(venv.create_environment_in_path(None), None);
    venv.print_installing_package();
    venv.print_creating_environment();
    venv.execute_custom_command();
    assert_eq!(
        venv.take_output(),
        "\x1B[36m[Installing Virtual Environment Package]\n\x1B[0m\n\x1B[36m[Creating Python 3.11 Environment]\n\x1B[0m\n\x1B[36m[Executing command]\n\x1B[0m\n"
    );
}

#[test]
fn virtualenv_package_detection() {
    let mut show = PipShow::new();
    assert!(!VirtualEnv::venv_installed(Some(&show)));
    show.parse("Name: virtualenv\nVersion: 20.0\n");
    assert!(VirtualEnv::venv_installed(Some(&show)));
    assert!(!VirtualEnv::venv_installed(None));
}

#[test]
fn fix_and_execute_commands() {
    let mut fix = PythonFixEnvCommand::new(FixVirtualEnvOption { deep_search: false });
    fix.print_search_parameters();
    fix.print_fix_attempt("/work/env");
    assert_eq!(
        fix.take_output(),
        "\x1B[33mSearch Parameters: \x1B[0m\x1B[37mDeep Search: [false]\x1B[0m\n\n\x1B[33mAttempting Environment Fix: \x1B[0m\x1B[37m/work/env\x1B[0m\n"
    );
    let mut exec = PythonExecuteCommand::new(VirtualEnvExecuteOption {
        deep_search: true,
        command: String::from("pip  list --outdated"),
    });
    assert_eq!(exec.get_command_args(), vec!["pip", "list", "--outdated"]);
    exec.print_search_parameters();
    assert_eq!(
        exec.take_output(),
        "\x1B[33mSearch Parameters: \x1B[0m\x1B[37mDeep Search: [true]\x1B[0m\n\n\x1B[33mCommand: \x1B[0m\x1B[37m[pip  list --outdated]\n\x1B[0m\n"
    );
}

#[test]
fn rust_task_command() {
    let mut on = RustVSCodeTaskCommand::new(RustVSCodeTasksOption { run_task: true });
    assert!(on.execute_command());
    assert_eq!(on.take_output(), "\x1B[36m[Generating Run Task]\x1B[0m\n");
    let mut off = RustVSCodeTaskCommand::new(RustVSCodeTasksOption { run_task: false });
    assert!(!off.execute_command());
    assert_eq!(off.take_output(), "");
}

#[test]
fn file_information() {
    let f = FileInfo::new(
        String::from("/a/b.rs"),
        String::from("2.00 KB"),
        String::from("N/A"),
        String::from("2024-01-02 10:00:00"),
    );
    assert_eq!(f.get_path(), "/a/b.rs");
    assert_eq!(f.get_formatted_size(), "2.00 KB");
    assert_eq!(f.get_formatted_creation_time(), "N/A");
    assert_eq!(f.get_formatted_modified_time(), "2024-01-02 10:00:00");
}

#[test]
fn path_join_and_text_conversions() {
    let base = WPath::from_string("/opt/env");
    assert_eq!(base.join("python.exe").get_path_buf(), "/opt/env/python.exe");
    assert_eq!(WPath::from_path_buf("/a/b").get_path_buf(), "/a/b");
    assert_eq!(WPath::from_path("c/d").get_path_buf(), "c/d");
    assert_eq!(
        PythonEnvironment::get_python_executable_path(&WPath::from_string("/opt/Python311")).get_path_buf(),
        "/opt/Python311/python.exe"
    );
}

#[test]
fn venv_steps_install_when_missing() {
    let version = SemanticVersion::from_string("3.11.4").unwrap();
    let mut t = Terminal::new();
    let env = PythonEnvironment::new(Some(WPath::from_string("/py")), &version, Some(pip()), &mut t).unwrap();
    let mut venv = VirtualEnv::new(&env);
    assert!(venv.start_venv_command() == VenvAction::FindPackage);
    let mut missing = PipShow::new();
    missing.parse("Name: other\n");
    assert!(venv.next_venv(VenvEvent::PackageShown(Some(missing))) == VenvAction::InstallPackage);
    assert_eq!(venv.take_output(), "\x1B[36m[Installing Virtual Environment Package]\n\x1B[0m\n");
    assert!(venv.next_venv(VenvEvent::PackageInstalled(true)) == VenvAction::CreateEnvironment);
    assert_eq!(venv.take_output(), "\n\x1B[36m[Creating Python 3.11 Environment]\n\x1B[0m\n");
    assert!(venv.next_venv(VenvEvent::EnvironmentCreated) == VenvAction::Done);
}

#[test]
fn venv_steps_skip_install_or_stop_on_failure() {
    let version = SemanticVersion::from_string("3.9.0").unwrap();
    let mut t = Terminal::new();
    let env = PythonEnvironment::new(Some(WPath::from_string("/py")), &version, Some(pip()), &mut t).unwrap();
    let mut venv = VirtualEnv::new(&env);
    venv.start_venv_command();
    let mut shown = PipShow::new();
    shown.parse("Name: virtualenv\nVersion: 20.0\n");
    assert!(venv.next_venv(VenvEvent::PackageShown(Some(shown))) == VenvAction::CreateEnvironment);
    let mut other = VirtualEnv::new(&env);
    other.start_venv_command();
    assert!(other.next_venv(VenvEvent::PackageShown(None)) == VenvAction::InstallPackage);
    assert!(other.next_venv(VenvEvent::PackageInstalled(false)) == VenvAction::Done);
    other.take_output();
}
