use vizier_lib::config::Settings;

#[test]
fn test_settings_default() {
    let s = Settings::default();
    assert_eq!(s.ui.theme, "default");
    assert!(s.ui.show_line_numbers);
    assert_eq!(s.keybindings.quit, "q");
    assert_eq!(s.keybindings.search, "/");
    assert!(s.analyzer.include_private);
    assert_eq!(s.analyzer.max_depth, 10);
}
