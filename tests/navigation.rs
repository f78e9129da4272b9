use term_wallet::nav::{App, Control, Key, Page};

fn keys(s: &str) -> Vec<Key> {
    s.chars().map(Key::Char).collect()
}

#[test]
fn starts_on_welcome() {
    assert_eq!(App::new().page, Page::Welcome);
}

#[test]
fn h_goes_home_and_w_comes_back() {
    let mut app = App::new();
    assert_eq!(app.handle_key(Key::Char('h')), Control::Continue);
    assert_eq!(app.page, Page::Home);
    assert_eq!(app.handle_key(Key::Char('w')), Control::Continue);
    assert_eq!(app.page, Page::Welcome);
}

#[test]
fn q_quits_without_changing_page() {
    let mut app = App::new();
    assert_eq!(app.handle_key(Key::Char('q')), Control::Quit);
    assert_eq!(app.page, Page::Welcome);
    let mut home = App { page: Page::Home };
    assert_eq!(home.handle_key(Key::Char('q')), Control::Quit);
    assert_eq!(home.page, Page::Home);
}

#[test]
fn unmapped_keys_are_ignored() {
    for page in [Page::Welcome, Page::Home] {
        let mut app = App { page };
        assert_eq!(app.handle_key(Key::Char('x')), Control::Continue);
        assert_eq!(app.page, page);
        assert_eq!(app.handle_key(Key::Char('H')), Control::Continue);
        assert_eq!(app.page, page);
        assert_eq!(app.handle_key(Key::Other), Control::Continue);
        assert_eq!(app.page, page);
    }
}

#[test]
fn no_event_changes_nothing() {
    let mut app = App { page: Page::Home };
    assert_eq!(app.handle_event(None), Control::Continue);
    assert_eq!(app.page, Page::Home);
    assert_eq!(app.handle_event(Some(Key::Char('w'))), Control::Continue);
    assert_eq!(app.page, Page::Welcome);
    assert_eq!(app.handle_event(Some(Key::Char('q'))), Control::Quit);
    assert_eq!(app.page, Page::Welcome);
}

#[test]
fn last_navigation_key_decides() {
    let mut app = App::new();
    assert!(!app.process_keys(&keys("hxwzh")));
    assert_eq!(app.page, Page::Home);

    let mut app = App::new();
    assert!(!app.process_keys(&keys("hhwab")));
    assert_eq!(app.page, Page::Welcome);

    let mut app = App::new();
    assert!(!app.process_keys(&keys("xyz")));
    assert_eq!(app.page, Page::Welcome);

    let mut app = App::new();
    assert!(!app.process_keys(&Vec::new()));
    assert_eq!(app.page, Page::Welcome);
}

#[test]
fn keys_after_q_are_not_handled() {
    let mut app = App::new();
    assert!(app.process_keys(&keys("hqw")));
    assert_eq!(app.page, Page::Home);

    let mut app = App { page: Page::Home };
    assert!(app.process_keys(&keys("qh")));
    assert_eq!(app.page, Page::Home);

    let mut app = App::new();
    let mut ks = keys("wh");
    ks.push(Key::Other);
    ks.push(Key::Char('q'));
    assert!(app.process_keys(&ks));
    assert_eq!(app.page, Page::Home);
}

#[test]
fn repeated_h_stays_home() {
    let mut app = App::new();
    assert!(!app.process_keys(&keys("hhhh")));
    assert_eq!(app.page, Page::Home);
    assert!(!app.process_keys(&keys("h")));
    assert_eq!(app.page, Page::Home);
}

#[test]
fn repeated_w_stays_welcome() {
    let mut app = App { page: Page::Home };
    assert!(!app.process_keys(&keys("www")));
    assert_eq!(app.page, Page::Welcome);
    assert!(!app.process_keys(&keys("w")));
    assert_eq!(app.page, Page::Welcome);
}
