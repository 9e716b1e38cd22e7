use arranger::commands::configuration::{PackagesOption, PythonDownloadOption};
use arranger::commands::python::{PythonDLCommand, PythonPackagesCommand};
use arranger::general::dynamic_table::DynamicTable;
use arranger::general::path::WPath;
use arranger::general::terminal::Terminal;
use arranger::general::version::SemanticVersion;
use arranger::python::pip::{PipPackage, PipPackageName};
use arranger::python::virtualenv::VirtualEnvSearch;

fn package(name: &str, version: &str) -> PipPackage {
    PipPackage::new(
        PipPackageName::new(name),
        SemanticVersion::from_string(version).unwrap(),
        WPath::from_string("/site"),
    )
}

#[test]
fn packages_listed_and_saved() {
    let option = PackagesOption { deep_search: false, save: true, distill: true };
    let mut c = PythonPackagesCommand::new(option);
    assert_eq!(c.get_filename_from_option(), "distilled_packages.txt");
    let packages = vec![package("requests", "2.31.0"), package("idna", "3.4")];
    c.list_packages(&packages);
    assert_eq!(
        c.take_output(),
        "Name: requests | Version: 2.31.0\nName: idna | Version: 3.4.0\n\x1B[33mTotal Packages: \x1B[0m\x1B[37m2\x1B[0m\n"
    );
    assert_eq!(c.requirements_text(&packages), "requests==2.31.0\nidna==3.4.0\n");
    assert_eq!(c.requirements_text(&Vec::new()), "");
}

#[test]
fn packages_search_parameters() {
    let option = PackagesOption { deep_search: true, save: false, distill: false };
    let mut c = PythonPackagesCommand::new(option);
    assert_eq!(c.get_filename_from_option(), "packages.txt");
    c.print_search_parameters();
    assert_eq!(
        c.take_output(),
        "\x1B[33mSearch Parameters: \x1B[0m\x1B[37mDeep Search: [true] | Distill: [false] | Save: [false]\x1B[0m\n\n"
    );
}

fn download_option() -> PythonDownloadOption {
    PythonDownloadOption {
        version: SemanticVersion::from_string("3.12.0").unwrap(),
        recent_patch: false,
        list_structure: false,
        architecture: String::from("amd64"),
        platform: String::from("windows"),
        package_type: String::from("standard"),
    }
}

#[test]
fn download_messages() {
    let c = PythonDLCommand::new(download_option());
    let mut t = Terminal::new();
    c.print_search_parameters(&mut t);
    assert_eq!(
        t.take_output(),
        "\x1B[33mSearch Parameters: \x1B[0m\x1B[37mArch: [amd64] | Platform: [windows] | Type: [standard]\n\x1B[0m\n"
    );
    c.print_found_version("https://x/y.exe", &mut t);
    assert_eq!(t.take_output(), "\x1B[32mFound version: \x1B[0m\x1B[37mhttps://x/y.exe\x1B[0m\n");
    c.report_download(Some(Ok(String::from("y.exe"))), &mut t);
    assert_eq!(t.take_output(), "\x1B[32mFile Downloaded: \x1B[0m\x1B[37my.exe\x1B[0m\n");
    c.report_download(Some(Err(String::from("404"))), &mut t);
    assert_eq!(
        t.take_output(),
        "\x1B[31mError: \x1B[0m\x1B[37m404\x1B[0m\n\x1B[31mPython version not found.\x1B[0m\n"
    );
    c.report_download(None, &mut t);
    assert_eq!(t.take_output(), "\x1B[31mPython version not found.\x1B[0m\n");
}

#[test]
fn config_file_search_settings() {
    let shallow = VirtualEnvSearch::new(false).config_file_search("/work");
    assert_eq!(shallow.get_root(), Some("/work"));
    assert!(shallow.quits_directory_on_match());
    assert!(shallow.evaluate_entry_criteria("/work/venv/pyvenv.cfg"));
    assert!(!shallow.evaluate_entry_criteria("/work/venv/setup.cfg"));
    let deep = VirtualEnvSearch::new(true).config_file_search("/work");
    assert!(!deep.quits_directory_on_match());
}

#[test]
fn table_printable_check() {
    let mut t = DynamicTable::new(20, 1);
    t.set_header("X");
    t.add_parameter("Name", "value");
    assert!(t.printable());
    let mut wide = DynamicTable::new(6, 0);
    wide.add_parameter("a", "ééééé");
    assert!(!wide.printable());
}
