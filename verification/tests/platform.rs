use webui::platform::native_defines;
use webui::platform::platform_link_libs;
use webui::platform::TargetOs;

#[test]
fn native_defines_are_the_fixed_five() {
    let defs = native_defines();
    assert_eq!(
        defs,
        vec!["NO_SSL", "NDEBUG", "NO_CACHING", "NO_CGI", "USE_WEBSOCKET"]
    );
}

#[test]
fn windows_links_exactly_the_three_gui_libraries() {
    let libs = platform_link_libs(TargetOs::Windows);
    assert_eq!(libs, vec!["user32", "shell32", "ole32"]);
}

#[test]
fn other_targets_link_no_gui_libraries() {
    assert!(platform_link_libs(TargetOs::Linux).is_empty());
    assert!(platform_link_libs(TargetOs::MacOs).is_empty());
    assert!(platform_link_libs(TargetOs::Other).is_empty());
}
