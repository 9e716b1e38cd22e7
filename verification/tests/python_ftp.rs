use arranger::languages::python::ftp::LinkType;
use arranger::python::python_ftp::{get_file_structure, installer_files_readable, FileStructure, PythonFTPRetriever, PythonFilename};
use arranger::python::version::PythonVersion;

const BODY: &str = "<html><body>\
<a href=\"../\">up</a>\
<a href=\"python-3.9.1-amd64.exe\">exe</a>\
<a href=\"python-3.9.1-embed-amd64.zip\">zip</a>\
<a href=\"python-3.9.1-amd64.exe\">again</a>\
<a href=\"doc/\">doc</a>\
</body></html>";

#[test]
fn anchors_read_with_html_parser() {
    let links = get_file_structure(BODY);
    assert_eq!(links.len(), 3);
    assert!(matches!(&links[0], LinkType::File(f) if f == "python-3.9.1-amd64.exe"));
    assert!(matches!(&links[2], LinkType::Directory(d) if d == "doc/"));
    assert_eq!(get_file_structure("<p>none</p>").len(), 0);
}

#[test]
fn structure_of_fetched_listing() {
    let mut s = FileStructure::new("https://h/", Some(BODY)).unwrap();
    assert!(FileStructure::new("https://h/", None).is_none());
    assert_eq!(
        s.list_structure(),
        "File: python-3.9.1-amd64.exe\nFile: python-3.9.1-embed-amd64.zip\nDirectory: doc/\n"
    );
    assert_eq!(s.access_file("python-3.9.1-amd64.exe"), Some(String::from("https://h/python-3.9.1-amd64.exe")));
    assert!(!s.access_directory("doc/", None));
    assert!(s.access_directory("doc/", Some("<a href=\"x.txt\">x</a>")));
    assert_eq!(s.list_structure(), "File: x.txt\n");
    assert_eq!(s.directory_url("sub/"), Some(String::from("https://h/doc/sub/")));
}

#[test]
fn installer_lookup() {
    let links = get_file_structure(BODY);
    assert!(installer_files_readable(&links));
    let r = PythonFTPRetriever::new();
    assert_eq!(r.root_url(), "https://www.python.org/ftp/python/");
    assert_eq!(r.get_version_directory(&PythonVersion::new(3, 9, 1)), "3.9.1/");
    assert_eq!(
        r.find_install_file(&links, "amd64", "windows", "standard"),
        Some(String::from("python-3.9.1-amd64.exe"))
    );
    assert_eq!(r.find_install_file(&links, "arm64", "windows", "standard"), None);
}

#[test]
fn installer_names() {
    let f = PythonFilename::new("python-3.9.1-amd64.exe").unwrap();
    assert!(f.match_requirements("python", "amd64", "standard", "windows", &["exe"]));
    assert!(PythonFilename::new("python-3.9.1-embed-amd64.zip").is_none());
    assert!(PythonFilename::can_parse("python-3.9.1-amd64.exe"));
}
