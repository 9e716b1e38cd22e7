use arranger::misc::https::HTTPS;
use arranger::misc::interrupt_handler::{InterruptAction, InterruptHandler};

#[test]
fn https_file_name_is_last_path_segment() {
    let https = HTTPS::new();
    assert_eq!(
        https.get_file_name("https://www.python.org/ftp/python/3.11.0/python-3.11.0-amd64.exe"),
        Ok("python-3.11.0-amd64.exe".to_string())
    );
    assert_eq!(https.get_file_name("https://example.com/a/b.tar.gz?x=1"), Ok("b.tar.gz".to_string()));
}

#[test]
fn https_file_name_missing() {
    let https = HTTPS::new();
    let message = Err("Failed to get file name from URL".to_string());
    assert_eq!(https.get_file_name("https://www.python.org/"), message);
    assert_eq!(https.get_file_name("https://www.python.org"), message);
    assert_eq!(https.get_file_name("https://www.python.org/ftp/"), message);
}

#[test]
fn https_file_name_invalid_uri() {
    let https = HTTPS::new();
    assert!(https.get_file_name("http://exa mple.com/a").is_err());
    assert!(https.get_file_name("").is_err());
}

#[test]
fn https_file_name_from_path_segments() {
    let https = HTTPS::new();
    assert_eq!(https.file_name_from_path("/a/b/c.zip"), Ok("c.zip".to_string()));
    assert_eq!(https.file_name_from_path("plain"), Ok("plain".to_string()));
    assert!(https.file_name_from_path("/a/b/").is_err());
    assert!(https.file_name_from_path("").is_err());
}

#[test]
fn interrupt_next_action_prefers_interrupt() {
    type H = InterruptHandler<fn(), fn()>;
    assert!(H::next_action(true, false) == InterruptAction::Interrupt);
    assert!(H::next_action(true, true) == InterruptAction::Interrupt);
    assert!(H::next_action(false, true) == InterruptAction::Finish);
    assert!(H::next_action(false, false) == InterruptAction::Wait);
}

fn noop() {}

#[test]
fn interrupt_handler_hands_back_its_parts() {
    let handler = InterruptHandler::new(noop as fn(), noop as fn());
    let (main, interrupt) = handler.into_parts();
    main();
    interrupt();
}
