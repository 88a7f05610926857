use webui::browser::Browser;
use webui::window::Window;
use webui::window::WindowTable;
use webui::window::MAX_IDS;

#[test]
fn new_twice_yields_distinct_identifiers() {
    let mut table = WindowTable::new();
    let w1 = Window::new(&mut table);
    let w2 = Window::new(&mut table);
    assert_ne!(w1.id(), 0);
    assert_ne!(w2.id(), 0);
    assert_ne!(w1.id(), w2.id());
}

#[test]
fn new_scans_upward_from_one() {
    let mut table = WindowTable::new();
    let w1 = Window::new(&mut table);
    let w2 = Window::new(&mut table);
    assert_eq!(w1.id(), 1);
    assert_eq!(w2.id(), 2);
}

#[test]
fn new_on_full_table_reports_failure() {
    let mut table = WindowTable::new();
    for _ in 1..MAX_IDS {
        let w = Window::new(&mut table);
        assert_ne!(w.id(), 0);
    }
    let w = Window::new(&mut table);
    assert_eq!(w.id(), 0);
    assert_eq!(Window::get_free_id(&table), 0);
}

#[test]
fn close_keeps_the_session_registered() {
    let mut table = WindowTable::new();
    let w = Window::new(&mut table);
    assert!(w.show(&mut table, "<html></html>"));
    w.close(&mut table);
    assert!(!w.is_shown(&table));
    assert!(w.set_root_folder(&mut table, "/srv/site"));
    assert!(w.show(&mut table, "<html></html>"));
    assert!(w.is_shown(&table));
}

#[test]
fn explicit_id_not_shown_before_show() {
    let mut table = WindowTable::new();
    let w = Window::new_with_id(&mut table, 7);
    assert_eq!(w.id(), 7);
    assert!(!w.is_shown(&table));
}

#[test]
fn get_free_id_reports_first_free_without_reserving() {
    let mut table = WindowTable::new();
    assert_eq!(Window::get_free_id(&table), 1);
    assert_eq!(Window::get_free_id(&table), 1);
    let _w1 = Window::new(&mut table);
    assert_eq!(Window::get_free_id(&table), 2);
    let _w3 = Window::new_with_id(&mut table, 3);
    assert_eq!(Window::get_free_id(&table), 2);
}

#[test]
fn show_marks_shown_and_close_stops_it() {
    let mut table = WindowTable::new();
    let w = Window::new(&mut table);
    assert!(!w.is_shown(&table));
    assert!(w.show(&mut table, "<html><body>hi</body></html>"));
    assert!(w.is_shown(&table));
    w.close(&mut table);
    assert!(!w.is_shown(&table));
}

#[test]
fn show_on_unregistered_handle_fails() {
    let mut table = WindowTable::new();
    let w = Window::new(&mut table);
    w.destroy(&mut table);
    assert!(!w.show(&mut table, "<html></html>"));
    assert!(!w.is_shown(&table));
}

#[test]
fn destroy_makes_handle_inert() {
    let mut table = WindowTable::new();
    let w = Window::new(&mut table);
    assert!(w.show(&mut table, "<html></html>"));
    w.destroy(&mut table);
    assert!(!w.is_shown(&table));
    w.set_kiosk(&mut table, true);
    w.set_hide(&mut table, true);
    w.set_size(&mut table, 800, 600);
    w.set_position(&mut table, 10, 20);
    w.set_public(&mut table, true);
    w.set_event_blocking(&mut table, true);
    w.navigate(&mut table, "http://localhost:8080/");
    w.run(&mut table, "console.log('gone')");
    assert!(!w.set_root_folder(&mut table, "/tmp/site"));
    assert!(!w.set_port(&mut table, 8080));
    assert!(!w.is_shown(&table));
    assert_eq!(w.get_url(&table), "");
}

#[test]
fn destroy_frees_the_identifier() {
    let mut table = WindowTable::new();
    let w1 = Window::new(&mut table);
    assert_eq!(w1.id(), 1);
    w1.destroy(&mut table);
    let w2 = Window::new(&mut table);
    assert_eq!(w2.id(), 1);
}

#[test]
fn set_root_folder_accepted_only_before_show() {
    let mut table = WindowTable::new();
    let w = Window::new(&mut table);
    assert!(w.set_root_folder(&mut table, "/srv/site"));
    assert!(w.show(&mut table, "index.html"));
    assert!(!w.set_root_folder(&mut table, "/srv/other"));
}

#[test]
fn set_port_accepted_only_before_show_and_in_range() {
    let mut table = WindowTable::new();
    let w = Window::new(&mut table);
    assert!(!w.set_port(&mut table, 0));
    assert!(!w.set_port(&mut table, 65536));
    assert!(w.set_port(&mut table, 8080));
    assert!(w.show(&mut table, "index.html"));
    assert!(!w.set_port(&mut table, 9090));
}

#[test]
fn navigate_sets_the_url() {
    let mut table = WindowTable::new();
    let w = Window::new(&mut table);
    assert_eq!(w.get_url(&table), "");
    w.navigate(&mut table, "http://localhost:1234/index.html");
    assert_eq!(w.get_url(&table), "http://localhost:1234/index.html");
}

#[test]
fn best_browser_follows_the_session() {
    let mut table = WindowTable::new();
    let w = Window::new(&mut table);
    assert_eq!(w.get_best_browser(&table), Browser::AnyBrowser);
    w.show_browser(&mut table, "<html></html>", Browser::Firefox);
    assert_eq!(w.get_best_browser(&table), Browser::Firefox);
    w.destroy(&mut table);
    assert_eq!(w.get_best_browser(&table), Browser::NoBrowser);
}

#[test]
fn show_browser_and_webview_mark_shown() {
    let mut table = WindowTable::new();
    let w = Window::new(&mut table);
    w.show_browser(&mut table, "<html></html>", Browser::Chrome);
    assert!(w.is_shown(&table));
    let v = Window::new(&mut table);
    v.show_webview(&mut table, "<html></html>");
    assert!(v.is_shown(&table));
}

#[test]
fn process_ids_default_to_zero() {
    let mut table = WindowTable::new();
    let w = Window::new(&mut table);
    assert_eq!(w.get_parent_process_id(&table), 0);
    assert_eq!(w.get_child_process_id(&table), 0);
}

#[test]
fn configuration_setters_touch_only_their_session() {
    let mut table = WindowTable::new();
    let w1 = Window::new(&mut table);
    let w2 = Window::new(&mut table);
    assert!(w1.show(&mut table, "a"));
    w2.set_kiosk(&mut table, true);
    w2.set_icon(&mut table, "<svg></svg>", "image/svg+xml");
    w2.set_profile(&mut table, "work", "/home/me/.profiles/work");
    w2.set_proxy(&mut table, "http://proxy:3128");
    w2.delete_profile(&mut table);
    assert!(w1.is_shown(&table));
    assert!(!w2.is_shown(&table));
}
