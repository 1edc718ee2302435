use outlook_web::browser::{
    browser_candidates, click_outcome, debugging_flag, file_name, find_browser,
    first_outlook_page, inbox_navigation_pause, is_outlook_url, junk_navigation, junk_redirect,
    key_code, menu_item_outcome, message_selector, page_line, process_names, settle_or_default,
    version_url, ConnectAction, ConnectFlow, ConnectStage, KeyModifiers, KeyPress,
    CONNECT_ATTEMPTS,
};
use outlook_web::config::Config;
use outlook_web::error::ClientError;
use outlook_web::text::{contains_text, decimal, same_text};

#[test]
fn selector_quotes_the_id() {
    assert_eq!(message_selector("AAQk123"), "[data-convid=\"AAQk123\"]");
    assert_eq!(message_selector(""), "[data-convid=\"\"]");
}

#[test]
fn config_port_defaults() {
    assert_eq!(Config { port: None }.port(), 9222);
    assert_eq!(Config { port: Some(9333) }.port(), 9333);
    assert_eq!(Config::default().port(), 9222);
    assert_eq!(Config::default().port, None);
}

#[test]
fn decimal_numerals() {
    assert_eq!(decimal(0), "0");
    assert_eq!(decimal(7), "7");
    assert_eq!(decimal(9222), "9222");
    assert_eq!(decimal(65535), "65535");
    assert_eq!(decimal(u64::MAX), "18446744073709551615");
}

#[test]
fn port_strings() {
    assert_eq!(version_url(9222), "http://127.0.0.1:9222/json/version");
    assert_eq!(debugging_flag(9222), "--remote-debugging-port=9222");
    assert_eq!(debugging_flag(0), "--remote-debugging-port=0");
}

#[test]
fn text_searches() {
    assert!(contains_text("https://outlook.live.com/mail/0/", "outlook.live.com"));
    assert!(contains_text("abc", ""));
    assert!(!contains_text("ab", "abc"));
    assert!(same_text("héllo", "héllo"));
    assert!(!same_text("hello", "hellO"));
}

#[test]
fn candidates_in_preference_order() {
    let c = browser_candidates();
    assert_eq!(c.len(), 12);
    assert_eq!(c[0], ("Vivaldi", "/usr/bin/vivaldi"));
    assert_eq!(c[4], ("Chromium", "/usr/bin/chromium"));
    assert_eq!(c[11].0, "Chrome");
}

#[test]
fn find_browser_takes_first_present() {
    assert_eq!(find_browser(&vec![false; 12]), None);
    assert_eq!(find_browser(&vec![]), None);
    let mut present = vec![false; 12];
    present[5] = true;
    present[9] = true;
    assert_eq!(find_browser(&present), Some(("Chromium", "/usr/bin/chromium-browser")));
    assert_eq!(find_browser(&vec![true]), Some(("Vivaldi", "/usr/bin/vivaldi")));
}

#[test]
fn process_names_are_last_components() {
    assert_eq!(file_name("/usr/bin/vivaldi-stable"), "vivaldi-stable");
    assert_eq!(file_name("plain"), "plain");
    assert_eq!(file_name("/dir/"), "");
    let names = process_names();
    assert_eq!(names.len(), 12);
    assert_eq!(names[0], "vivaldi");
    assert_eq!(names[3], "Vivaldi");
    assert_eq!(names[11], "Google Chrome");
}

#[test]
fn outlook_addresses() {
    assert!(is_outlook_url("https://outlook.office.com/mail/inbox"));
    assert!(is_outlook_url("https://outlook.office365.com/mail/"));
    assert!(is_outlook_url("https://outlook.live.com/mail/0/"));
    assert!(!is_outlook_url("https://mail.example.com/outlook"));
    let urls = vec![
        None,
        Some("https://example.com".to_string()),
        Some("https://outlook.live.com/mail/0/".to_string()),
        Some("https://outlook.office.com/mail/".to_string()),
    ];
    assert_eq!(first_outlook_page(&urls), Some(2));
    assert_eq!(first_outlook_page(&vec![None, Some("about:blank".to_string())]), None);
}

#[test]
fn tab_listing_line() {
    assert_eq!(page_line("Mail", "https://outlook.live.com/"), "  Mail [https://outlook.live.com/] <-- Outlook");
    assert_eq!(page_line("News", "https://example.com/"), "  News [https://example.com/]");
}

#[test]
fn key_codes() {
    assert_eq!(key_code("e"), "KeyE");
    assert_eq!(key_code("z"), "KeyZ");
    assert_eq!(key_code("Delete"), "Delete");
    assert_eq!(key_code("E"), "E");
    assert_eq!(key_code("1"), "1");
}

#[test]
fn key_press_modifiers_and_pause() {
    let names = vec!["Ctrl".to_string(), "Meta".to_string(), "Hyper".to_string()];
    let p = KeyPress::new("a", Some(&names), None);
    assert_eq!(p.code, "KeyA");
    assert_eq!(p.key, "a");
    assert_eq!(p.modifiers, KeyModifiers { ctrl: true, shift: false, alt: false, meta: true });
    assert_eq!(p.pause_ms, 500);
    let q = KeyPress::new("Escape", None, Some(20));
    assert_eq!(q.modifiers, KeyModifiers { ctrl: false, shift: false, alt: false, meta: false });
    assert_eq!(q.pause_ms, 20);
    assert_eq!(q.code, "Escape");
}

#[test]
fn navigation_statuses() {
    assert_eq!(inbox_navigation_pause("navigating"), 2000);
    assert_eq!(inbox_navigation_pause("already"), 0);
    assert!(matches!(junk_navigation("failed"), Err(ClientError::JunkNavigationFailed)));
    assert_eq!(junk_navigation("navigating").unwrap(), 2000);
    assert_eq!(junk_navigation("already").unwrap(), 0);
    assert!(matches!(junk_redirect("url_parse_failed"), Err(ClientError::JunkNavigationFailed)));
    assert_eq!(junk_redirect("navigating").unwrap(), 2000);
}

#[test]
fn click_results() {
    assert_eq!(settle_or_default(None), 300);
    assert_eq!(click_outcome("#x", true, Some(2000)).unwrap(), 2000);
    assert_eq!(click_outcome("#x", true, None).unwrap(), 300);
    match click_outcome("#x", false, None) {
        Err(ClientError::ElementNotFound { selector }) => assert_eq!(selector, "#x"),
        other => panic!("unexpected {:?}", other),
    }
    match menu_item_outcome("Move", false, Some(5)) {
        Err(ClientError::MenuItemNotFound { text }) => assert_eq!(text, "Move"),
        other => panic!("unexpected {:?}", other),
    }
    assert_eq!(menu_item_outcome("Move", true, Some(5)).unwrap(), 5);
}

#[test]
fn connect_to_running_browser() {
    let f = ConnectFlow::new(9222);
    assert_eq!(f.pending(), Some(ConnectAction::TryConnect { delay_ms: 0 }));
    let f = f.advance(true);
    assert_eq!(f.pending(), None);
    assert!(matches!(f.into_result(), Some(Ok(()))));
}

#[test]
fn connect_refuses_browser_without_port() {
    let f = ConnectFlow::new(9333).advance(false);
    assert_eq!(f.pending(), Some(ConnectAction::CheckRunning));
    let f = f.advance(true);
    assert!(matches!(f.into_result(), Some(Err(ClientError::DebuggingDisabled { port: 9333 }))));
}

#[test]
fn connect_starts_and_retries() {
    let mut f = ConnectFlow::new(9222).advance(false).advance(false);
    assert_eq!(f.pending(), Some(ConnectAction::StartBrowser));
    f = f.advance(true);
    let mut tries = 0;
    while let Some(action) = f.pending() {
        assert_eq!(action, ConnectAction::TryConnect { delay_ms: 500 });
        tries += 1;
        f = f.advance(tries == 5);
    }
    assert_eq!(tries, 5);
    assert!(matches!(f.into_result(), Some(Ok(()))));
}

#[test]
fn connect_gives_up_after_all_attempts() {
    let mut f = ConnectFlow::new(9222).advance(false).advance(false).advance(true);
    let mut tries = 0;
    while f.pending().is_some() {
        tries += 1;
        f = f.advance(false);
    }
    assert_eq!(tries, CONNECT_ATTEMPTS);
    assert!(matches!(f.stage, ConnectStage::Finished(Err(ClientError::ConnectTimeout))));
}
