use rpc_tui::AppMode;
use rpc_tui::app::App;
use rpc_tui::events::{
    complete_exchange, handle_history_mode, handle_main_mode, handle_param_input_mode, InputEvent,
};
use rpc_tui::rpc::{JsonRpcResponse, RpcError, RpcOutcome};

#[test]
fn end_to_end_filter_confirm_and_exchange() {
    let mut app = App::new();
    app.all_methods = vec!["eth_blockNumber".to_string(), "eth_getBalance".to_string()];
    app.filter_methods();

    // Type "bal": only eth_getBalance matches, cursor at the start.
    handle_main_mode(&mut app, InputEvent::Char('b'));
    handle_main_mode(&mut app, InputEvent::Char('a'));
    handle_main_mode(&mut app, InputEvent::Char('l'));
    assert_eq!(app.filtered_methods, vec!["eth_getBalance"]);
    assert_eq!(app.methods_selected, 0);

    // Confirm: parameter entry opens.
    handle_main_mode(&mut app, InputEvent::Confirm);
    assert_eq!(app.mode, AppMode::ParamInput);

    // Type "0xABC" into the first field, then confirm.
    for c in "0xABC".chars() {
        handle_param_input_mode(&mut app, InputEvent::Char(c));
    }
    let sent = handle_param_input_mode(&mut app, InputEvent::Confirm);
    let req = sent.expect("a confirmed send builds a request");
    assert_eq!(req.method, "eth_getBalance");
    assert_eq!(req.params, vec!["0xABC", ""]);
    let id = req.id;

    // A mocked successful response: one history entry, back to Main.
    let response = JsonRpcResponse {
        jsonrpc: "2.0".to_string(),
        result: Some("\"0x1\"".to_string()),
        error: None,
        id,
    };
    complete_exchange(&mut app, req, RpcOutcome::Reply(response));
    assert_eq!(app.history.len(), 1);
    assert_eq!(app.mode, AppMode::Main);
    assert_eq!(app.history[0].request.method, "eth_getBalance");
    assert!(matches!(&app.history[0].outcome, RpcOutcome::Reply(r) if r.id == id));
}

#[test]
fn empty_search_always_yields_full_list() {
    let mut app = App::new();
    // Filter down first.
    handle_main_mode(&mut app, InputEvent::Char('b'));
    handle_main_mode(&mut app, InputEvent::Char('a'));
    handle_main_mode(&mut app, InputEvent::Char('l'));
    assert_eq!(app.filtered_methods.len(), 1);
    // Erase the whole query: the full list is back, whatever came before.
    handle_main_mode(&mut app, InputEvent::Backspace);
    handle_main_mode(&mut app, InputEvent::Backspace);
    handle_main_mode(&mut app, InputEvent::Backspace);
    assert_eq!(app.search_input, "");
    assert_eq!(app.filtered_methods, app.all_methods);
    assert_eq!(app.methods_selected, 0);
}

#[test]
fn transport_failure_still_records_one_entry() {
    let mut app = App::new();
    handle_main_mode(&mut app, InputEvent::Confirm);
    let req = handle_param_input_mode(&mut app, InputEvent::Confirm).expect("request built");
    complete_exchange(&mut app, req, RpcOutcome::Failed(RpcError::Transport));
    assert_eq!(app.history.len(), 1);
    assert_eq!(app.mode, AppMode::Main);
    assert!(matches!(app.history[0].outcome, RpcOutcome::Failed(RpcError::Transport)));
    assert!(!app.should_quit);
}

#[test]
fn protocol_failure_still_records_one_entry() {
    let mut app = App::new();
    handle_main_mode(&mut app, InputEvent::Confirm);
    let req = handle_param_input_mode(&mut app, InputEvent::Confirm).expect("request built");
    complete_exchange(&mut app, req, RpcOutcome::Failed(RpcError::Protocol));
    assert_eq!(app.history.len(), 1);
    assert_eq!(app.mode, AppMode::Main);
    assert!(matches!(app.history[0].outcome, RpcOutcome::Failed(RpcError::Protocol)));
}

#[test]
fn replay_loads_stored_request_into_param_input() {
    let mut app = App::new();
    // Send a request for the second method with a filled first field.
    handle_main_mode(&mut app, InputEvent::Char('b'));
    handle_main_mode(&mut app, InputEvent::Char('a'));
    handle_main_mode(&mut app, InputEvent::Char('l'));
    handle_main_mode(&mut app, InputEvent::Confirm);
    for c in "0xABC".chars() {
        handle_param_input_mode(&mut app, InputEvent::Char(c));
    }
    let req = handle_param_input_mode(&mut app, InputEvent::Confirm).expect("request built");
    complete_exchange(&mut app, req, RpcOutcome::Failed(RpcError::Transport));

    // Clear the search, browse the history, replay the entry.
    handle_main_mode(&mut app, InputEvent::Backspace);
    handle_main_mode(&mut app, InputEvent::Backspace);
    handle_main_mode(&mut app, InputEvent::Backspace);
    handle_main_mode(&mut app, InputEvent::HistoryShortcut);
    assert_eq!(app.mode, AppMode::History);
    handle_history_mode(&mut app, InputEvent::Confirm);

    assert_eq!(app.mode, AppMode::ParamInput);
    assert_eq!(app.param_inputs, vec!["0xABC", ""]);
    assert_eq!(app.filtered_methods, app.all_methods);
    // eth_getBalance is the second entry of the full list.
    assert_eq!(app.methods_selected, 1);
}

#[test]
fn history_arrows_stay_in_bounds() {
    let mut app = App::new();
    for _ in 0..2 {
        handle_main_mode(&mut app, InputEvent::Confirm);
        let req = handle_param_input_mode(&mut app, InputEvent::Confirm).expect("request built");
        complete_exchange(&mut app, req, RpcOutcome::Failed(RpcError::Transport));
    }
    handle_main_mode(&mut app, InputEvent::HistoryShortcut);
    handle_history_mode(&mut app, InputEvent::Up);
    assert_eq!(app.history_selected, 0);
    handle_history_mode(&mut app, InputEvent::Down);
    assert_eq!(app.history_selected, 1);
    handle_history_mode(&mut app, InputEvent::Down);
    assert_eq!(app.history_selected, 1);
}

#[test]
fn request_ids_are_fresh_across_sends() {
    let mut app = App::new();
    handle_main_mode(&mut app, InputEvent::Confirm);
    let first = handle_param_input_mode(&mut app, InputEvent::Confirm).expect("request built");
    complete_exchange(&mut app, first.clone(), RpcOutcome::Failed(RpcError::Transport));
    handle_main_mode(&mut app, InputEvent::Confirm);
    let second = handle_param_input_mode(&mut app, InputEvent::Confirm).expect("request built");
    assert_eq!(first.id, 1);
    assert_eq!(second.id, 2);
}
