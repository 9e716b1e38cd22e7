use arranger::general::path::WPath;
use arranger::general::shell::CommandResponse;
use arranger::general::terminal::Terminal;
use arranger::general::version::SemanticVersion;
use arranger::python::pip::{
    holds_name, Pip, PipMetadata, PipMetadataParser, PipPackage, PipPackageName, PipPackageParser,
    Requirements,
};

fn response(stdout: &str, stderr: &str, code: i32) -> CommandResponse {
    CommandResponse::new(stdout.as_bytes().to_vec(), stderr.as_bytes().to_vec(), Some(code)).unwrap()
}

fn package(name: &str, version: &str) -> PipPackage {
    PipPackage::new(
        PipPackageName::new(name),
        SemanticVersion::from_string(version).unwrap(),
        WPath::from_string("/site-packages"),
    )
}

#[test]
fn package_names_are_normalised() {
    let n = PipPackageName::new("Typing_Extensions");
    assert_eq!(n.get_string(), "typing-extensions");
    assert_eq!(n.duplicate().get_string(), "typing-extensions");
    let names = vec![PipPackageName::new("idna"), PipPackageName::new("Requests")];
    assert!(holds_name(&names, "requests"));
    assert!(!holds_name(&names, "Requests"));
}

#[test]
fn package_texts() {
    let p = package("Requests", "2.31.0");
    assert_eq!(p.get_name_string(), "requests");
    assert_eq!(p.get_string(), "Name: requests | Version: 2.31.0");
    assert_eq!(p.get_requirement_string(), "requests==2.31.0");
    assert_eq!(p.get_version().get_3p_version(), (2, 31, 0));
    assert_eq!(p.duplicate().get_requirement_string(), "requests==2.31.0");
}

#[test]
fn pip_version_from_output() {
    let r = response("pip 23.2.1 from /usr/lib/python3/dist-packages/pip (python 3.11)\n", "", 0);
    let v = Pip::parse_pip_version(Some(&r)).unwrap();
    assert_eq!(v.get_3p_version(), (23, 2, 1));
    let mut t = Terminal::new();
    let pip = Pip::new(Some(&r), &mut t).unwrap();
    assert_eq!(t.take_output(), "");
    assert_eq!(pip.get_pip_version().get_string(), "23.2.1");
    assert_eq!(
        pip.get_install_package_args("requests"),
        vec!["-m", "pip", "install", "requests", "--disable-pip-version-check", "--no-warn-script-location"]
    );
    assert_eq!(
        pip.get_find_package_args("requests"),
        vec!["-m", "pip", "show", "requests", "--disable-pip-version-check"]
    );
}

#[test]
fn old_pip_is_not_told_about_scripts() {
    let r = response("pip 9.0.1 from /x (python 2.7)", "", 0);
    let mut t = Terminal::new();
    let pip = Pip::new(Some(&r), &mut t).unwrap();
    assert_eq!(
        pip.duplicate().get_install_package_args("six"),
        vec!["-m", "pip", "install", "six", "--disable-pip-version-check"]
    );
}

#[test]
fn pip_version_errors() {
    let r = response("", "No module named pip", 1);
    assert_eq!(Pip::parse_pip_version(Some(&r)).unwrap_err(), "Pip Error: No module named pip");
    assert_eq!(Pip::parse_pip_version(None).unwrap_err(), "Error: Failed to get response from Pip.");
    let other = response("Python 3.11.4", "", 0);
    assert_eq!(Pip::parse_pip_version(Some(&other)).unwrap_err(), "Error: Failed to get response from Pip.");
    let mut t = Terminal::new();
    assert!(Pip::new(Some(&r), &mut t).is_none());
    assert_eq!(
        t.take_output(),
        "\x1B[31mFound Python, but was unable to retrieve Pip version.\n\x1B[0m\n\x1B[31mPip Error: No module named pip\x1B[0m\n"
    );
}

#[test]
fn pip_show_fields() {
    let r = response("pip 23.2.1 from /x", "", 0);
    let mut t = Terminal::new();
    let pip = Pip::new(Some(&r), &mut t).unwrap();
    let show = response("Name: requests\nVersion: 2.31.0\nSummary: HTTP for Humans.\n", "", 0);
    let found = pip.find_package(Some(&show)).unwrap();
    assert_eq!(found.get_name(), Some("requests"));
    assert!(pip.find_package(None).is_none());
    let empty = response("", "WARNING: Package(s) not found: nothing", 1);
    assert_eq!(pip.find_package(Some(&empty)).unwrap().get_name(), None);
}

#[test]
fn install_reports_success_by_code() {
    let r = response("pip 23.2.1 from /x", "", 0);
    let mut t = Terminal::new();
    let pip = Pip::new(Some(&r), &mut t).unwrap();
    let mut ok = Some(response("Successfully installed six", "", 0));
    assert!(pip.install_package(&mut ok));
    let mut failed = Some(response("", "ERROR: no matching distribution", 1));
    assert!(!pip.install_package(&mut failed));
    let mut none: Option<CommandResponse> = None;
    assert!(!pip.install_package(&mut none));
}

#[test]
fn requirements_map() {
    let mut req = Requirements::new();
    req.insert(String::from("base"), vec![PipPackageName::new("idna")]);
    req.insert(String::from("socks"), vec![PipPackageName::new("PySocks")]);
    req.insert(String::from("base"), vec![PipPackageName::new("idna"), PipPackageName::new("certifi")]);
    assert_eq!(req.get("base").unwrap().len(), 2);
    assert_eq!(req.get("socks").unwrap()[0].get_string(), "pysocks");
    assert!(req.get("missing").is_none());
    assert_eq!(req.duplicate().get("base").unwrap()[1].get_string(), "certifi");
}

#[test]
fn metadata_requirements() {
    let lines: Vec<String> = vec![
        "Metadata-Version: 2.1",
        "Name: requests",
        "Requires-Dist: charset-normalizer (<4,>=2)",
        "Requires-Dist: idna",
        "Provides-Extra: socks",
        "Requires-Dist: PySocks ; extra == 'socks'",
        "",
        "Requires-Dist: ignored",
    ]
    .into_iter()
    .map(String::from)
    .collect();
    let parser = PipMetadataParser::new();
    let req = parser.parse_requires(&lines);
    let base = req.get("base").unwrap();
    assert_eq!(base.len(), 2);
    assert_eq!(base[0].get_string(), "charset-normalizer");
    assert_eq!(base[1].get_string(), "idna");
    let socks = req.get("socks").unwrap();
    assert_eq!(socks.len(), 1);
    assert_eq!(socks[0].get_string(), "pysocks");
    assert_eq!(parser.parse_flag_name("Provides-Extra: security ", "Provides-Extra:"), "security");
    assert_eq!(parser.parse_requires_name("Requires-Dist: Typing_Extensions>=4", "Requires-Dist:").get_string(), "typing-extensions>=4");
}

#[test]
fn directory_names_and_distilling() {
    let dir = WPath::from_string("/venv/lib/site-packages");
    let parser = PipPackageParser::new(&dir);
    assert_eq!(parser.get_packages_dir().get_path_buf(), "/venv/lib/site-packages");
    assert!(PipPackageParser::dir_name_readable("requests-2.31.0.dist-info"));
    assert!(!PipPackageParser::dir_name_readable("broken.dist-info"));
    assert!(PipPackageParser::dir_name_readable("requests"));
    let mut packages: Vec<PipPackage> = Vec::new();
    let entry = dir.join("x");
    parser.parse_dir_name(&entry, "requests-2.31.0.dist-info", &mut packages);
    parser.parse_dir_name(&entry, "idna-3.4.dist-info", &mut packages);
    parser.parse_dir_name(&entry, "urllib3-2.0.4.dist-info", &mut packages);
    parser.parse_dir_name(&entry, "requests", &mut packages);
    parser.parse_dir_name(&entry, "odd-x.y.dist-info", &mut packages);
    assert_eq!(packages.len(), 3);
    let mut req = Requirements::new();
    req.insert(String::from("base"), vec![PipPackageName::new("idna"), PipPackageName::new("urllib3")]);
    let metadata = vec![PipMetadata::new(&packages[0], &req)];
    assert_eq!(metadata[0].get_package().get_name_string(), "requests");
    parser.distill_packages(&mut packages, &metadata);
    assert_eq!(packages.len(), 1);
    assert_eq!(packages[0].get_string(), "Name: requests | Version: 2.31.0");
}

#[test]
fn package_name_normal_form_is_stable() {
    let once = PipPackageName::new("My_Cool_PKG");
    assert_eq!(once.get_string(), "my-cool-pkg");
    let twice = PipPackageName::new(once.get_string());
    assert_eq!(twice.get_string(), once.get_string());
}
