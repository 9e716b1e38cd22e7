use arranger::general::version::SemanticVersion;
use arranger::languages::python::ftp::{
    files_readable, DirectoryStep, FileStructure, LinkType, PythonFTPRetriever, PythonFilename,
};
use arranger::terminal::terminal::Terminal;

const ROOT: &str = "https://www.python.org/ftp/python/";

fn listing(names: &[&str]) -> String {
    let mut body = String::from("<html><body><pre>\n<a href=\"../\">../</a>\n");
    for name in names {
        body.push_str(&format!("<a href=\"{}\">{}</a>\n", name, name));
    }
    body.push_str("</pre></body></html>\n");
    body
}

#[test]
fn link_types() {
    assert!(LinkType::new("../").is_none());
    assert!(matches!(LinkType::new("3.12.0/"), Some(LinkType::Directory(d)) if d == "3.12.0/"));
    assert!(matches!(LinkType::new("a.tgz"), Some(LinkType::File(f)) if f == "a.tgz"));
    let a = LinkType::new("x/").unwrap();
    let b = a.duplicate();
    assert!(a.same_as(&b));
    assert!(!a.same_as(&LinkType::new("x").unwrap()));
}

#[test]
fn structure_keeps_each_link_once() {
    let body = listing(&["3.12.0/", "index.html", "3.12.0/"]);
    let mut s = FileStructure::new(ROOT, &body).unwrap();
    assert_eq!(s.list_structure(), "Directory: 3.12.0/\nFile: index.html\n");
    assert_eq!(s.get_structure().len(), 2);
    assert_eq!(s.directory_url("3.12.0/"), Some(format!("{}3.12.0/", ROOT)));
    assert_eq!(s.directory_url("index.html"), None);
    assert_eq!(s.access_file("index.html"), Some(format!("{}index.html", ROOT)));
    assert_eq!(s.access_file("missing.txt"), None);
}

#[test]
fn structure_without_links() {
    assert!(FileStructure::new(ROOT, "<html>nothing here</html>").is_none());
    assert!(FileStructure::new(ROOT, "<a href=\"../\">up</a>").is_none());
}

#[test]
fn access_directory_moves_only_with_links() {
    let mut s = FileStructure::new(ROOT, &listing(&["3.12.0/"])).unwrap();
    assert!(!s.access_directory("3.12.0/", "empty"));
    assert_eq!(s.list_structure(), "Directory: 3.12.0/\n");
    assert!(s.access_directory("3.12.0/", &listing(&["python-3.12.0-amd64.exe"])));
    assert_eq!(s.list_structure(), "File: python-3.12.0-amd64.exe\n");
    assert_eq!(
        s.access_file("python-3.12.0-amd64.exe"),
        Some(format!("{}3.12.0/python-3.12.0-amd64.exe", ROOT))
    );
}

#[test]
fn filename_parts() {
    let f = PythonFilename::new("python-3.12.0-amd64.exe").unwrap();
    assert!(f.match_requirements("python", "amd64", "standard", "windows", &["exe", "msi"]));
    assert!(!f.match_requirements("python", "amd64", "standard", "windows", &["msi"]));
    let t = PythonFilename::new("Python-3.12.0.tgz").unwrap();
    assert!(t.match_requirements("python", "n/a", "source", "any", &["tgz"]));
    let m = PythonFilename::new("python-3.12.0-macos11.pkg").unwrap();
    assert!(m.match_requirements("python", "n/a", "standard", "macos", &["pkg"]));
    let e = PythonFilename::new("python-3.12.0-embed-win32.zip").unwrap();
    assert!(e.match_requirements("python", "n/a", "embed", "windows", &["zip"]));
}

#[test]
fn filename_rejected() {
    assert!(PythonFilename::new("python-3.12.0-embed-amd64.zip").is_none());
    assert!(PythonFilename::new("python-3.12.0.txt").is_none());
    assert!(PythonFilename::new("notes-readme.exe").is_none());
    assert!(PythonFilename::can_parse("python-3.12.0-amd64.exe"));
}

#[test]
fn setup_file_and_listing() {
    let names = [
        "python-3.12.0-amd64.exe",
        "python-3.12.0-embed-amd64.zip",
        "python-3.12.0-macos11.pkg",
        "Python-3.12.0.tgz",
    ];
    let root = FileStructure::new(ROOT, &listing(&["3.12.0/"])).unwrap();
    let mut dir = root;
    assert!(dir.access_directory("3.12.0/", &listing(&names)));
    let structure = dir.get_structure();
    assert!(files_readable(&structure));
    let retriever = PythonFTPRetriever::new();
    assert_eq!(
        retriever.find_setup_file(&structure, "amd64", "windows", "standard"),
        Some(String::from("python-3.12.0-amd64.exe"))
    );
    assert_eq!(retriever.find_setup_file(&structure, "arm64", "windows", "standard"), None);
    assert_eq!(
        retriever.get_setup_file(&dir, "n/a", "any", "source"),
        Some(format!("{}3.12.0/Python-3.12.0.tgz", ROOT))
    );
    let expected = String::from("Name: python | Ver: 3.12.0 | Platform: windows | Arch: amd64 | Type: standard\n")
        + "Name: python | Ver: 3.12.0 | Platform: macos | Arch: n/a | Type: standard\n"
        + "Name: python | Ver: 3.12.0 | Platform: any | Arch: n/a | Type: source\n";
    assert_eq!(retriever.list_file_structure(&dir), expected);
}

#[test]
fn version_directory_found_directly() {
    let retriever = PythonFTPRetriever::new();
    let version = SemanticVersion::from_string("3.12.1").unwrap();
    let (mut search, url) = retriever.search_version_directory(&version);
    assert_eq!(url, ROOT);
    let step = search.next(Some(listing(&["3.12.1/"]).as_str()));
    assert!(matches!(&step, DirectoryStep::Fetch(u) if *u == format!("{}3.12.1/", ROOT)));
    match search.next(Some(listing(&["python-3.12.1-amd64.exe"]).as_str())) {
        DirectoryStep::Found(f) => assert_eq!(f.list_structure(), "File: python-3.12.1-amd64.exe\n"),
        _ => panic!("directory not found"),
    }
    assert!(matches!(search.next(None), DirectoryStep::Missing));
}

#[test]
fn version_directory_falls_back_to_two_parts() {
    let retriever = PythonFTPRetriever::new();
    let version = SemanticVersion::from_string("2.0.0").unwrap();
    let (mut search, _) = retriever.search_version_directory(&version);
    search.next(Some(listing(&["2.0/"]).as_str()));
    let step = search.next(None);
    assert!(matches!(&step, DirectoryStep::Fetch(u) if *u == format!("{}2.0/", ROOT)));
    assert!(matches!(search.next(Some(listing(&["Python-2.0.tgz"]).as_str())), DirectoryStep::Found(_)));
}

#[test]
fn version_directory_missing() {
    let retriever = PythonFTPRetriever::new();
    let version = SemanticVersion::from_string("3.99.4").unwrap();
    let (mut search, _) = retriever.search_version_directory(&version);
    search.next(Some(listing(&["3.12.0/"]).as_str()));
    assert!(matches!(search.next(Some("no links")), DirectoryStep::Missing));
    let (mut again, _) = retriever.search_version_directory(&version);
    assert!(matches!(again.next(None), DirectoryStep::Missing));
}

#[test]
fn latest_patch_search() {
    let retriever = PythonFTPRetriever::new();
    let mut version = SemanticVersion::from_string("3.12.5").unwrap();
    let mut terminal = Terminal::new();
    let mut search = retriever.get_setup_file_latest_patch(&mut version);
    assert_eq!(version.get_patch(), 0);
    assert!(search.pending());
    search.record(&mut version, Some(String::from("a0")), &mut terminal);
    assert_eq!(terminal.take_output(), "\x1B[33m\rVersion: \x1B[0m\x1B[37m3.12.0\x1B[0m");
    search.record(&mut version, Some(String::from("a1")), &mut terminal);
    assert_eq!(version.get_patch(), 2);
    search.record(&mut version, None, &mut terminal);
    assert_eq!(version.get_patch(), 1);
    assert!(!search.pending());
    terminal.take_output();
    assert_eq!(search.finish(&mut terminal), Some(String::from("a1")));
    assert_eq!(terminal.take_output(), "\n");
}

#[test]
fn latest_patch_search_moves_past_missing_first_patch() {
    let retriever = PythonFTPRetriever::new();
    let mut version = SemanticVersion::from_string("3.13.2").unwrap();
    let mut terminal = Terminal::new();
    let mut search = retriever.get_setup_file_latest_patch(&mut version);
    search.record(&mut version, None, &mut terminal);
    assert_eq!(version.get_patch(), 1);
    assert!(search.pending());
    search.record(&mut version, None, &mut terminal);
    assert_eq!(version.get_patch(), 0);
    assert!(!search.pending());
    assert_eq!(search.finish(&mut terminal), None);
}

