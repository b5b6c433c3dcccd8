use rpc_tui::AppMode;
use rpc_tui::app::App;

#[test]
fn app_new_initializes_correctly() {
    let app = App::new();
    // Default mode is Main
    assert_eq!(app.mode, AppMode::Main);
    // Quit flag should be false
    assert!(!app.should_quit);
    // Search input should be empty
    assert_eq!(app.search_input, "");
    // Filtered methods should match all methods initially
    assert_eq!(app.filtered_methods, app.all_methods);
    // First method selected by default
    assert_eq!(app.methods_selected, 0);
    // No parameters by default
    assert!(app.param_inputs.is_empty());
    // History empty by default
    assert!(app.history.is_empty());
    // History selection should be zero
    assert_eq!(app.history_selected, 0);
}

#[test]
fn filter_methods_filters_by_query() {
    let mut app = App::new();
    // Setup a known method list
    app.all_methods = vec!["foo".to_string(), "bar".to_string(), "baz".to_string()];
    // Case-insensitive filter
    app.search_input = "B".to_string();
    app.filter_methods();
    assert_eq!(app.filtered_methods, vec!["bar", "baz"]);
    // Selection resets to 0
    assert_eq!(app.methods_selected, 0);

    // Empty query resets
    app.search_input.clear();
    app.filter_methods();
    assert_eq!(app.filtered_methods, app.all_methods);
}

#[test]
fn filter_matches_substring_in_the_middle() {
    let mut app = App::new();
    app.search_input = "bal".to_string();
    app.filter_methods();
    assert_eq!(app.filtered_methods, vec!["eth_getBalance"]);
}

#[test]
fn filter_with_no_match_yields_empty_list() {
    let mut app = App::new();
    app.search_input = "zzz".to_string();
    app.filter_methods();
    assert!(app.filtered_methods.is_empty());
    assert_eq!(app.methods_selected, 0);
}
