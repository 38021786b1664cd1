use lsp_core::dispatch::{
    RawNotification, RawRequest, RawResponse, Task, ERROR_CODE_METHOD_NOT_FOUND,
    ERROR_CODE_REQUEST_CANCELLED,
};
use lsp_core::server::{
    core_method_names, decoration_task_for_outcome, loop_turn, notification_task_for_outcome,
    register_watcher_request, Action, CancelId, Event, FileChangeEvent, FileChangeType,
    NotificationEvent, PublishDisposition, RawMessage, ServerState, REGISTER_WATCHER_ID,
};
use lsp_core::dispatch::{HandlerError, LspError, RawNotification as Note};
use lsp_core::vfs::FileId;
use lsp_core::world::LibraryData;

fn b(s: &str) -> Vec<u8> {
    s.as_bytes().to_vec()
}

fn new_state() -> ServerState {
    ServerState::new(b("/ws"), 1, true, false)
}

fn open_event(uri: &str, text: &str) -> Event {
    Event::Msg(RawMessage::Notification(NotificationEvent::DidOpen {
        uri: b(uri),
        text: b(text),
    }))
}

fn response_actions(actions: &[Action]) -> Vec<&RawResponse> {
    actions
        .iter()
        .filter_map(|a| match a {
            Action::SendResponse(r) => Some(r),
            _ => None,
        })
        .collect()
}

#[test]
fn open_document_subscribes_and_schedules_diagnostics() {
    let mut state = new_state();
    let methods = core_method_names();
    let r = loop_turn(&mut state, &methods, open_event("file:///ws/a.rs", "a\nb\n"));
    assert!(r.fatal.is_none());
    assert!(state.subs.contains(FileId(0)));
    let publishes: Vec<_> = r
        .actions
        .iter()
        .filter_map(|a| match a {
            Action::PublishUpdates { subscriptions, publish_decorations, .. } => {
                Some((subscriptions.clone(), *publish_decorations))
            }
            _ => None,
        })
        .collect();
    assert_eq!(publishes.len(), 1);
    assert_eq!(publishes[0].0, vec![FileId(0)]);
    assert!(!publishes[0].1);
}

#[test]
fn cancel_before_completion_yields_one_cancelled_response_and_no_later_success() {
    let mut state = new_state();
    let methods = core_method_names();

    // request with id 7 arrives and is routed
    let req = RawRequest { id: 7, method: "textDocument/hover".to_owned(), params: b("{}") };
    let r1 = loop_turn(&mut state, &methods, Event::Msg(RawMessage::Request(req)));
    assert!(matches!(r1.actions[0], Action::SpawnHandler { id: 7, .. }));

    // the client cancels id 7 before the handler completes
    let r2 = loop_turn(
        &mut state,
        &methods,
        Event::Msg(RawMessage::Notification(NotificationEvent::Cancel {
            id: CancelId::Number(7),
        })),
    );
    let responses = response_actions(&r2.actions);
    assert_eq!(responses.len(), 1);
    assert_eq!(responses[0].id, 7);
    assert_eq!(responses[0].error.as_ref().unwrap().code, ERROR_CODE_REQUEST_CANCELLED);

    // the worker completes anyway; its response is dropped
    let late = Task::Respond(RawResponse::ok(7, b("\"late\"")));
    let r3 = loop_turn(&mut state, &methods, Event::Task(late));
    assert_eq!(response_actions(&r3.actions).len(), 0);
}

#[test]
fn completed_request_is_answered_while_pending() {
    let mut state = new_state();
    let methods = core_method_names();
    let req = RawRequest { id: 3, method: "textDocument/completion".to_owned(), params: b("{}") };
    loop_turn(&mut state, &methods, Event::Msg(RawMessage::Request(req)));
    let done = Task::Respond(RawResponse::ok(3, b("[]")));
    let r = loop_turn(&mut state, &methods, Event::Task(done));
    let responses = response_actions(&r.actions);
    assert_eq!(responses.len(), 1);
    assert_eq!(responses[0].id, 3);
    assert!(responses[0].result.is_some());
    // a second completion for the same id is dropped
    let again = Task::Respond(RawResponse::ok(3, b("[]")));
    let r2 = loop_turn(&mut state, &methods, Event::Task(again));
    assert_eq!(response_actions(&r2.actions).len(), 0);
}

#[test]
fn empty_change_list_is_logged_and_dropped_without_state_change() {
    let mut state = new_state();
    let methods = core_method_names();
    loop_turn(&mut state, &methods, open_event("file:///ws/a.rs", "text"));
    let r = loop_turn(
        &mut state,
        &methods,
        Event::Msg(RawMessage::Notification(NotificationEvent::DidChange {
            uri: b("file:///ws/a.rs"),
            content_changes: Vec::new(),
        })),
    );
    assert!(r.fatal.is_none());
    assert!(r.actions.iter().any(|a| matches!(a, Action::LogError { .. })));
    assert!(!r.actions.iter().any(|a| matches!(a, Action::PublishUpdates { .. })));
    assert_eq!(state.world.vfs.contents(FileId(0)), Some(b("text")));
}

#[test]
fn unknown_method_is_answered_with_method_not_found() {
    let mut state = new_state();
    let methods = core_method_names();
    let req = RawRequest { id: 9, method: "textDocument/doesNotExist".to_owned(), params: b("{}") };
    let r = loop_turn(&mut state, &methods, Event::Msg(RawMessage::Request(req)));
    let responses = response_actions(&r.actions);
    assert_eq!(responses.len(), 1);
    assert_eq!(responses[0].id, 9);
    assert_eq!(responses[0].error.as_ref().unwrap().code, ERROR_CODE_METHOD_NOT_FOUND);
    assert!(!state.pending_requests.contains(9));
}

#[test]
fn watcher_created_file_is_installed_and_open_replaces_it() {
    let mut state = new_state();
    let methods = core_method_names();
    let r = loop_turn(
        &mut state,
        &methods,
        Event::Msg(RawMessage::Notification(NotificationEvent::DidChangeWatchedFiles {
            changes: vec![FileChangeEvent {
                uri: b("file:///ws/new.rs"),
                kind: FileChangeType::Created,
                text: Some(b("from disk")),
            }],
        })),
    );
    assert!(r.fatal.is_none());
    assert_eq!(state.world.vfs.len(), 1);
    assert_eq!(state.world.vfs.contents(FileId(0)), Some(b("from disk")));

    // the client then opens the same document: replaced, not duplicated
    loop_turn(&mut state, &methods, open_event("file:///ws/new.rs", "from editor"));
    assert_eq!(state.world.vfs.len(), 1);
    assert_eq!(state.world.vfs.contents(FileId(0)), Some(b("from editor")));
}

#[test]
fn close_publishes_empty_diagnostics_and_unsubscribes() {
    let mut state = new_state();
    let methods = core_method_names();
    loop_turn(&mut state, &methods, open_event("file:///ws/a.rs", "x"));
    assert!(state.subs.contains(FileId(0)));
    let r = loop_turn(
        &mut state,
        &methods,
        Event::Msg(RawMessage::Notification(NotificationEvent::DidClose {
            uri: b("file:///ws/a.rs"),
        })),
    );
    assert!(!state.subs.contains(FileId(0)));
    let clears: Vec<_> = r
        .actions
        .iter()
        .filter_map(|a| match a {
            Action::SendNotification(RawNotification::PublishDiagnostics { uri, diagnostics }) => {
                Some((uri.clone(), diagnostics.len()))
            }
            _ => None,
        })
        .collect();
    assert_eq!(clears, vec![(b("file:///ws/a.rs"), 0)]);
}

#[test]
fn invalid_uri_is_logged_and_dropped() {
    let mut state = new_state();
    let methods = core_method_names();
    let r = loop_turn(&mut state, &methods, open_event("mailto:someone", "x"));
    assert!(r.fatal.is_none());
    assert!(r.actions.iter().any(|a| matches!(a, Action::LogError { .. })));
    assert_eq!(state.world.vfs.len(), 0);
    assert!(!state.subs.contains(FileId(0)));
}

#[test]
fn string_cancel_id_is_fatal() {
    let mut state = new_state();
    let methods = core_method_names();
    let r = loop_turn(
        &mut state,
        &methods,
        Event::Msg(RawMessage::Notification(NotificationEvent::Cancel {
            id: CancelId::Text("abc".to_owned()),
        })),
    );
    assert!(r.fatal.is_some());
}

#[test]
fn workspace_loaded_feedback_is_emitted_exactly_once() {
    let mut state = new_state();
    let methods = core_method_names();
    let ws_feedbacks = |actions: &[Action]| {
        actions
            .iter()
            .filter(|a| {
                matches!(a, Action::SendNotification(RawNotification::InternalFeedback { message })
                    if message == "workspace loaded")
            })
            .count()
    };
    // one root still scanning: no feedback yet
    let r0 = loop_turn(&mut state, &methods, open_event("file:///ws/a.rs", "x"));
    assert_eq!(ws_feedbacks(&r0.actions), 0);
    // the root finishes indexing: the counter reaches zero, feedback goes out
    let r1 = loop_turn(&mut state, &methods, Event::Lib(LibraryData { root_id: 0 }));
    assert_eq!(state.world.roots_to_scan, 0);
    assert_eq!(ws_feedbacks(&r1.actions), 1);
    // later turns never repeat it
    let r2 = loop_turn(&mut state, &methods, open_event("file:///ws/b.rs", "y"));
    assert_eq!(ws_feedbacks(&r2.actions), 0);
}

#[test]
fn no_feedback_outside_internal_mode() {
    let mut state = ServerState::new(b("/ws"), 1, false, false);
    let methods = core_method_names();
    let r = loop_turn(&mut state, &methods, Event::Lib(LibraryData { root_id: 0 }));
    assert!(!r.actions.iter().any(|a| {
        matches!(a, Action::SendNotification(RawNotification::InternalFeedback { .. }))
    }));
}

#[test]
fn ready_libraries_move_onto_the_pool() {
    let mut state = new_state();
    let methods = core_method_names();
    state.world.note_library_ready(LibraryData { root_id: 4 });
    state.world.note_library_ready(LibraryData { root_id: 5 });
    let r = loop_turn(&mut state, &methods, open_event("file:///ws/a.rs", "x"));
    let spawned: Vec<u32> = r
        .actions
        .iter()
        .filter_map(|a| match a {
            Action::SpawnIndex { lib } => Some(lib.root_id),
            _ => None,
        })
        .collect();
    assert_eq!(spawned, vec![4, 5]);
}

#[test]
fn watcher_registration_is_fully_pinned() {
    let reg = register_watcher_request();
    assert_eq!(reg.id, REGISTER_WATCHER_ID);
    assert_eq!(reg.method, "client/registerCapability");
    assert_eq!(reg.registration_id, "ra_lsp_watch");
    assert_eq!(reg.watch_method, "workspace/didChangeWatchedFiles");
    assert_eq!(reg.glob_pattern, "**/*.rs");
}

#[test]
fn method_table_holds_the_routed_methods() {
    let methods = core_method_names();
    assert_eq!(methods.len(), 22);
    assert_eq!(methods[0], "experimental/syntaxTree");
    assert!(methods.iter().any(|m| m == "textDocument/hover"));
    assert!(methods.iter().any(|m| m == "textDocument/references"));
    assert!(methods.iter().any(|m| m == "workspace/symbol"));
}

#[test]
fn deleted_watch_events_each_clear_their_document() {
    let mut state = new_state();
    let methods = core_method_names();
    loop_turn(&mut state, &methods, open_event("file:///ws/a.rs", "x"));
    loop_turn(&mut state, &methods, open_event("file:///ws/b.rs", "y"));
    let r = loop_turn(
        &mut state,
        &methods,
        Event::Msg(RawMessage::Notification(NotificationEvent::DidChangeWatchedFiles {
            changes: vec![
                FileChangeEvent {
                    uri: b("file:///ws/a.rs"),
                    kind: FileChangeType::Deleted,
                    text: None,
                },
                FileChangeEvent {
                    uri: b("file:///ws/b.rs"),
                    kind: FileChangeType::Deleted,
                    text: None,
                },
            ],
        })),
    );
    let cleared: Vec<Vec<u8>> = r
        .actions
        .iter()
        .filter_map(|a| match a {
            Action::SendNotification(Note::PublishDiagnostics { uri, diagnostics })
                if diagnostics.is_empty() =>
            {
                Some(uri.clone())
            }
            _ => None,
        })
        .collect();
    assert_eq!(cleared, vec![b("file:///ws/a.rs"), b("file:///ws/b.rs")]);
}

#[test]
fn publication_outcomes_send_drop_or_log() {
    match notification_task_for_outcome(b("file:///ws/a.rs"), Ok(vec![b("d1")])) {
        PublishDisposition::Send(lsp_core::dispatch::Task::Notify(
            Note::PublishDiagnostics { uri, diagnostics },
        )) => {
            assert_eq!(uri, b("file:///ws/a.rs"));
            assert_eq!(diagnostics, vec![b("d1")]);
        }
        _ => panic!("computed diagnostics must be sent"),
    }
    assert!(matches!(
        notification_task_for_outcome(b("u"), Err(HandlerError::Canceled)),
        PublishDisposition::DropQuietly
    ));
    match notification_task_for_outcome(b("u"), Err(HandlerError::Other("boom".to_owned()))) {
        PublishDisposition::Log(m) => assert_eq!(m, "boom"),
        _ => panic!("other failures must be logged"),
    }
    match notification_task_for_outcome(b("u"), Err(HandlerError::Lsp(LspError::new(-1, "busy".to_owned())))) {
        PublishDisposition::Log(m) => assert_eq!(m, "busy"),
        _ => panic!("handler errors must be logged"),
    }
    match decoration_task_for_outcome(b("u"), Ok(b("deco"))) {
        PublishDisposition::Send(lsp_core::dispatch::Task::Notify(
            Note::PublishDecorations { uri, payload },
        )) => {
            assert_eq!(uri, b("u"));
            assert_eq!(payload, b("deco"));
        }
        _ => panic!("computed decorations must be sent"),
    }
    assert!(matches!(
        decoration_task_for_outcome(b("u"), Err(HandlerError::Canceled)),
        PublishDisposition::DropQuietly
    ));
}

#[test]
fn unexpected_response_is_logged() {
    let mut state = new_state();
    let methods = core_method_names();
    let resp = RawResponse::ok(99, b("null"));
    let r = loop_turn(&mut state, &methods, Event::Msg(RawMessage::Response(resp)));
    assert!(r.actions.iter().any(|a| matches!(a, Action::LogError { .. })));
    let expected = RawResponse::ok(REGISTER_WATCHER_ID, b("null"));
    let r2 = loop_turn(&mut state, &methods, Event::Msg(RawMessage::Response(expected)));
    assert!(!r2.actions.iter().any(|a| matches!(a, Action::LogError { .. })));
}
