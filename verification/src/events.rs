//! The mode state machine: one transition function per mode, driven by
//! already-decoded input events, plus the step that records a finished
//! request/response exchange. Every event in every mode either changes the
//! state as specified here or is a no-op; nothing panics and nothing else
//! is touched.

use vstd::prelude::*;
use vstd::pervasive::VecAdditionalExecFns;

use crate::AppMode;
use crate::app::{App, clone_names, find_name, is_first_name_match, name_found};
use crate::rpc::{HistoryEntry, JsonRpcRequest, RpcOutcome};
use crate::search::filter_spec;

verus! {

/// One decoded input event, as the terminal layer hands it in. Decoding
/// raw key presses into these is outside the core.
#[derive(Debug, Clone, Copy)]
pub enum InputEvent {
    /// A printable character was typed.
    Char(char),
    /// Delete the last character.
    Backspace,
    /// Move the relevant selection cursor up.
    Up,
    /// Move the relevant selection cursor down.
    Down,
    /// Confirm or submit.
    Confirm,
    /// Leave the current mode.
    Cancel,
    /// Shortcut into `History` mode.
    HistoryShortcut,
    /// Quit the application.
    Quit,
}

/// The search text, method lists and methods cursor are unchanged.
pub open spec fn same_search(pre: App, post: App) -> bool {
    &&& post.search_input == pre.search_input
    &&& post.all_methods == pre.all_methods
    &&& post.filtered_methods == pre.filtered_methods
    &&& post.methods_selected == pre.methods_selected
}

/// The parameter fields are unchanged.
pub open spec fn same_params(pre: App, post: App) -> bool {
    post.param_inputs == pre.param_inputs
}

/// The history and its cursor are unchanged.
pub open spec fn same_history(pre: App, post: App) -> bool {
    &&& post.history == pre.history
    &&& post.history_selected == pre.history_selected
}

/// Nothing changed at all.
pub open spec fn no_change(pre: App, post: App) -> bool {
    &&& same_search(pre, post)
    &&& same_params(pre, post)
    &&& same_history(pre, post)
    &&& post.mode == pre.mode
    &&& post.should_quit == pre.should_quit
    &&& post.next_id == pre.next_id
}

/// A quit event raised the quit flag and touched nothing else.
pub open spec fn quit_step(pre: App, post: App) -> bool {
    &&& post.should_quit
    &&& same_search(pre, post)
    &&& same_params(pre, post)
    &&& same_history(pre, post)
    &&& post.mode == pre.mode
    &&& post.next_id == pre.next_id
}

/// A cancel returned to `Main` and touched nothing else: search text,
/// filtered list, parameters and history all keep their values.
pub open spec fn cancelled_step(pre: App, post: App) -> bool {
    &&& post.mode == AppMode::Main
    &&& same_search(pre, post)
    &&& same_params(pre, post)
    &&& same_history(pre, post)
    &&& post.should_quit == pre.should_quit
    &&& post.next_id == pre.next_id
}

/// The search text became `text`, the filtered list was recomputed from
/// it over the full list, and the methods cursor reset to the start.
pub open spec fn searched_step(pre: App, post: App, text: Seq<char>) -> bool {
    &&& post.search_input@ == text
    &&& post.all_methods == pre.all_methods
    &&& post.filtered_methods@ == filter_spec(pre.all_methods@, text)
    &&& post.methods_selected == 0
    &&& same_params(pre, post)
    &&& same_history(pre, post)
    &&& post.mode == pre.mode
    &&& post.should_quit == pre.should_quit
    &&& post.next_id == pre.next_id
}

/// Everything but the methods cursor is unchanged.
pub open spec fn same_but_methods_cursor(pre: App, post: App) -> bool {
    &&& post.search_input == pre.search_input
    &&& post.all_methods == pre.all_methods
    &&& post.filtered_methods == pre.filtered_methods
    &&& same_params(pre, post)
    &&& same_history(pre, post)
    &&& post.mode == pre.mode
    &&& post.should_quit == pre.should_quit
    &&& post.next_id == pre.next_id
}

/// The methods cursor moved one step up; at the start it stays put.
pub open spec fn moved_up_methods(pre: App, post: App) -> bool {
    &&& same_but_methods_cursor(pre, post)
    &&& pre.methods_selected > 0 ==> post.methods_selected == pre.methods_selected - 1
    &&& pre.methods_selected == 0 ==> post.methods_selected == pre.methods_selected
}

/// The methods cursor moved one step down; at the last index it stays put.
pub open spec fn moved_down_methods(pre: App, post: App) -> bool {
    &&& same_but_methods_cursor(pre, post)
    &&& pre.methods_selected + 1 < pre.filtered_methods@.len() ==> post.methods_selected
        == pre.methods_selected + 1
    &&& pre.methods_selected + 1 >= pre.filtered_methods@.len() ==> post.methods_selected
        == pre.methods_selected
}

/// Parameter entry began: the mode is `ParamInput` and the field set holds
/// two fresh empty fields; nothing else moved.
pub open spec fn began_param_input(pre: App, post: App) -> bool {
    &&& post.mode == AppMode::ParamInput
    &&& post.param_inputs@.len() == 2
    &&& post.param_inputs@[0]@ == Seq::<char>::empty()
    &&& post.param_inputs@[1]@ == Seq::<char>::empty()
    &&& same_search(pre, post)
    &&& same_history(pre, post)
    &&& post.should_quit == pre.should_quit
    &&& post.next_id == pre.next_id
}

/// Everything but the parameter fields is unchanged.
pub open spec fn same_but_params(pre: App, post: App) -> bool {
    &&& same_search(pre, post)
    &&& same_history(pre, post)
    &&& post.mode == pre.mode
    &&& post.should_quit == pre.should_quit
    &&& post.next_id == pre.next_id
}

/// The first parameter field, when there is one, had `c` appended; the
/// other fields kept their values.
pub open spec fn param_char_step(pre: App, post: App, c: char) -> bool {
    &&& same_but_params(pre, post)
    &&& pre.param_inputs@.len() == 0 ==> same_params(pre, post)
    &&& pre.param_inputs@.len() > 0 ==> {
        &&& post.param_inputs@.len() == pre.param_inputs@.len()
        &&& post.param_inputs@[0]@ == pre.param_inputs@[0]@.push(c)
        &&& forall|i: int|
            1 <= i < pre.param_inputs@.len() ==> post.param_inputs@[i] == pre.param_inputs@[i]
    }
}

/// The first parameter field, when there is one, lost its last character;
/// an empty field stays empty, and the other fields keep their values.
pub open spec fn param_backspace_step(pre: App, post: App) -> bool {
    &&& same_but_params(pre, post)
    &&& pre.param_inputs@.len() == 0 ==> same_params(pre, post)
    &&& pre.param_inputs@.len() > 0 ==> {
        &&& post.param_inputs@.len() == pre.param_inputs@.len()
        &&& post.param_inputs@[0]@ == if pre.param_inputs@[0]@.len() == 0 {
            pre.param_inputs@[0]@
        } else {
            pre.param_inputs@[0]@.drop_last()
        }
        &&& forall|i: int|
            1 <= i < pre.param_inputs@.len() ==> post.param_inputs@[i] == pre.param_inputs@[i]
    }
}

/// The request a confirm in `ParamInput` builds: the selected method, the
/// current parameter fields in order, and the next fresh identifier.
pub open spec fn built_request(pre: App, req: JsonRpcRequest) -> bool {
    &&& req.jsonrpc@ == "2.0"@
    &&& req.method == pre.filtered_methods@[pre.methods_selected as int]
    &&& req.params@ == pre.param_inputs@
    &&& req.id == pre.next_id
}

/// The identifier the state hands to the request after `id`.
pub open spec fn next_id_after(id: u64) -> u64 {
    if id == u64::MAX {
        0u64
    } else {
        (id + 1) as u64
    }
}

/// Everything but the history cursor is unchanged.
pub open spec fn same_but_history_cursor(pre: App, post: App) -> bool {
    &&& same_search(pre, post)
    &&& same_params(pre, post)
    &&& post.history == pre.history
    &&& post.mode == pre.mode
    &&& post.should_quit == pre.should_quit
    &&& post.next_id == pre.next_id
}

/// The history cursor moved one step up; at the start it stays put.
pub open spec fn moved_up_history(pre: App, post: App) -> bool {
    &&& same_but_history_cursor(pre, post)
    &&& pre.history_selected > 0 ==> post.history_selected == pre.history_selected - 1
    &&& pre.history_selected == 0 ==> post.history_selected == pre.history_selected
}

/// The history cursor moved one step down; at the last index it stays put.
pub open spec fn moved_down_history(pre: App, post: App) -> bool {
    &&& same_but_history_cursor(pre, post)
    &&& pre.history_selected + 1 < pre.history@.len() ==> post.history_selected
        == pre.history_selected + 1
    &&& pre.history_selected + 1 >= pre.history@.len() ==> post.history_selected
        == pre.history_selected
}

/// A replay of the selected history entry: the filtered list is reset to
/// the full list, the methods cursor moves to the replayed method's first
/// position when the full list holds it and stays put when it does not,
/// the parameter fields become the replayed request's parameters, and the
/// mode is `ParamInput`. The search text and the history are untouched.
pub open spec fn replayed_step(pre: App, post: App) -> bool {
    let req = pre.history@[pre.history_selected as int].request;
    &&& post.mode == AppMode::ParamInput
    &&& post.filtered_methods@ == pre.all_methods@
    &&& post.param_inputs@ == req.params@
    &&& name_found(pre.all_methods@, req.method@) ==> is_first_name_match(
        pre.all_methods@,
        req.method@,
        Some(post.methods_selected),
    )
    &&& !name_found(pre.all_methods@, req.method@) ==> post.methods_selected
        == pre.methods_selected
    &&& post.search_input == pre.search_input
    &&& post.all_methods == pre.all_methods
    &&& same_history(pre, post)
    &&& post.should_quit == pre.should_quit
    &&& post.next_id == pre.next_id
}

/// Handles one event in `Main` mode: characters and backspace edit the
/// search text and re-filter, the arrows move the methods cursor inside
/// its bounds, confirm opens parameter entry, and the shortcut opens the
/// history. Unrecognized events change nothing.
pub fn handle_main_mode(app: &mut App, ev: InputEvent)
    requires
        old(app).wf(),
    ensures
        final(app).wf(),
        match ev {
            InputEvent::Quit => quit_step(*old(app), *final(app)),
            InputEvent::Char(c) => searched_step(
                *old(app),
                *final(app),
                old(app).search_input@.push(c),
            ),
            InputEvent::Backspace => searched_step(
                *old(app),
                *final(app),
                if old(app).search_input@.len() == 0 {
                    old(app).search_input@
                } else {
                    old(app).search_input@.drop_last()
                },
            ),
            InputEvent::Up => moved_up_methods(*old(app), *final(app)),
            InputEvent::Down => moved_down_methods(*old(app), *final(app)),
            InputEvent::Confirm => began_param_input(*old(app), *final(app)),
            InputEvent::HistoryShortcut => {
                &&& final(app).mode == AppMode::History
                &&& same_search(*old(app), *final(app))
                &&& same_params(*old(app), *final(app))
                &&& same_history(*old(app), *final(app))
                &&& final(app).should_quit == old(app).should_quit
                &&& final(app).next_id == old(app).next_id
            },
            InputEvent::Cancel => no_change(*old(app), *final(app)),
        },
{
    match ev {
        InputEvent::Quit => {
            app.should_quit = true;
        },
        InputEvent::Char(c) => {
            app.search_input.push(c);
            app.filter_methods();
        },
        InputEvent::Backspace => {
            let _ = app.search_input.pop();
            app.filter_methods();
        },
        InputEvent::Up => {
            if app.methods_selected > 0 {
                app.methods_selected = app.methods_selected - 1;
            }
        },
        InputEvent::Down => {
            let len = app.filtered_methods.len();
            if app.methods_selected + 1 < len {
                app.methods_selected = app.methods_selected + 1;
            }
        },
        InputEvent::Confirm => {
            let mut fields: Vec<String> = Vec::new();
            fields.push(String::new());
            fields.push(String::new());
            app.param_inputs = fields;
            app.mode = AppMode::ParamInput;
        },
        InputEvent::HistoryShortcut => {
            app.mode = AppMode::History;
        },
        InputEvent::Cancel => {},
    }
}

/// Handles one event in `ParamInput` mode: characters and backspace edit
/// the first parameter field, cancel returns to `Main`, and confirm builds
/// the request to send — handed back to the caller, which performs the
/// exchange and then records it with `complete_exchange`. With an empty
/// filtered list there is no selected method and confirm changes nothing.
pub fn handle_param_input_mode(app: &mut App, ev: InputEvent) -> (r: Option<JsonRpcRequest>)
    requires
        old(app).wf(),
    ensures
        final(app).wf(),
        match ev {
            InputEvent::Quit => quit_step(*old(app), *final(app)) && r is None,
            InputEvent::Cancel => cancelled_step(*old(app), *final(app)) && r is None,
            InputEvent::Confirm => {
                if old(app).filtered_methods@.len() > 0 {
                    &&& r matches Some(req) && built_request(*old(app), req)
                    &&& final(app).next_id == next_id_after(old(app).next_id)
                    &&& same_search(*old(app), *final(app))
                    &&& same_params(*old(app), *final(app))
                    &&& same_history(*old(app), *final(app))
                    &&& final(app).mode == old(app).mode
                    &&& final(app).should_quit == old(app).should_quit
                } else {
                    no_change(*old(app), *final(app)) && r is None
                }
            },
            InputEvent::Char(c) => param_char_step(*old(app), *final(app), c) && r is None,
            InputEvent::Backspace => param_backspace_step(*old(app), *final(app)) && r is None,
            _ => no_change(*old(app), *final(app)) && r is None,
        },
{
    match ev {
        InputEvent::Quit => {
            app.should_quit = true;
            None
        },
        InputEvent::Cancel => {
            app.mode = AppMode::Main;
            None
        },
        InputEvent::Confirm => {
            if app.filtered_methods.len() > 0 {
                let method = app.filtered_methods[app.methods_selected].clone();
                let params = clone_names(&app.param_inputs);
                let id = app.next_id;
                if app.next_id == u64::MAX {
                    app.next_id = 0;
                } else {
                    app.next_id = app.next_id + 1;
                }
                Some(JsonRpcRequest::new(method, params, id))
            } else {
                None
            }
        },
        InputEvent::Char(c) => {
            if app.param_inputs.len() > 0 {
                let mut field = app.param_inputs[0].clone();
                field.push(c);
                app.param_inputs.set(0, field);
            }
            None
        },
        InputEvent::Backspace => {
            if app.param_inputs.len() > 0 {
                let mut field = app.param_inputs[0].clone();
                let _ = field.pop();
                app.param_inputs.set(0, field);
            }
            None
        },
        InputEvent::Up | InputEvent::Down | InputEvent::HistoryShortcut => None,
    }
}

/// Handles one event in `History` mode: the arrows move the history
/// cursor inside its bounds, cancel returns to `Main` untouched, and
/// confirm replays the selected entry into `ParamInput`. With an empty
/// history, confirm changes nothing.
pub fn handle_history_mode(app: &mut App, ev: InputEvent)
    requires
        old(app).wf(),
    ensures
        final(app).wf(),
        match ev {
            InputEvent::Quit => quit_step(*old(app), *final(app)),
            InputEvent::Cancel => cancelled_step(*old(app), *final(app)),
            InputEvent::Up => moved_up_history(*old(app), *final(app)),
            InputEvent::Down => moved_down_history(*old(app), *final(app)),
            InputEvent::Confirm => {
                if old(app).history@.len() > 0 {
                    replayed_step(*old(app), *final(app))
                } else {
                    no_change(*old(app), *final(app))
                }
            },
            _ => no_change(*old(app), *final(app)),
        },
{
    match ev {
        InputEvent::Quit => {
            app.should_quit = true;
        },
        InputEvent::Cancel => {
            app.mode = AppMode::Main;
        },
        InputEvent::Up => {
            if app.history_selected > 0 {
                app.history_selected = app.history_selected - 1;
            }
        },
        InputEvent::Down => {
            let len = app.history.len();
            if app.history_selected + 1 < len {
                app.history_selected = app.history_selected + 1;
            }
        },
        InputEvent::Confirm => {
            if app.history.len() > 0 {
                let sel = app.history_selected;
                let method_name = app.history[sel].request.method.clone();
                let replay_params = clone_names(&app.history[sel].request.params);
                app.filtered_methods = clone_names(&app.all_methods);
                match find_name(&app.all_methods, &method_name) {
                    Some(idx) => {
                        app.methods_selected = idx;
                    },
                    None => {},
                }
                app.param_inputs = replay_params;
                app.mode = AppMode::ParamInput;
            }
        },
        InputEvent::Char(_) | InputEvent::Backspace | InputEvent::HistoryShortcut => {},
    }
}

/// Records one finished exchange — success and failure alike: appends
/// exactly one history entry pairing the request with its outcome, and
/// returns the client to `Main` mode. Nothing else moves, and no outcome
/// raises the quit flag.
pub fn complete_exchange(app: &mut App, request: JsonRpcRequest, outcome: RpcOutcome)
    requires
        old(app).wf(),
    ensures
        final(app).wf(),
        final(app).mode == AppMode::Main,
        final(app).history@ == old(app).history@.push(
            HistoryEntry { request: request, outcome: outcome },
        ),
        final(app).history_selected == old(app).history_selected,
        same_search(*old(app), *final(app)),
        same_params(*old(app), *final(app)),
        final(app).should_quit == old(app).should_quit,
        final(app).next_id == old(app).next_id,
{
    app.history.push(HistoryEntry { request, outcome });
    app.mode = AppMode::Main;
}

} // verus!
