//! The main-loop substrate: the event shapes the multiplexer hands in, the
//! per-turn state transition, and the actions the loop asks its surroundings
//! to perform (send a message, move work onto the pool).
//!
//! The loop thread owns all mutable state; one call of `loop_turn` is one
//! turn: dispatch the event by variant, drain the libraries that became
//! ready, emit the one-shot "workspace loaded" feedback, and schedule
//! diagnostic republication when document state changed. Channels, threads
//! and the transport live outside; they feed events in and carry the
//! returned actions out.

use vstd::prelude::*;

use crate::dispatch::{
    route_request, HandlerError, RawNotification, RawRequest, RawResponse, RouteResult, Task,
    ERROR_CODE_METHOD_NOT_FOUND, ERROR_CODE_REQUEST_CANCELLED,
};
use crate::pending::PendingRequests;
use crate::subscriptions::Subscriptions;
use crate::uri::{spec_uri_to_path, uri_to_path};
use crate::vfs::{
    add_file_id, apply_add, apply_change, apply_remove, apply_vfs_task, is_prefix, spec_find,
    FileEntryView, FileId, Vfs, VfsTask, MAX_FILES,
};
use crate::world::{LibraryData, WorldSnapshot, WorldState};

verus! {

/// Reserved id of the single watcher-registration request sent at startup;
/// the only response the client is expected to send.
pub const REGISTER_WATCHER_ID: u64 = 0;

/// A client-supplied cancellation target: the protocol allows numbers and
/// strings, this server supports numbers only.
pub enum CancelId {
    Number(u64),
    Text(String),
}

/// What the filesystem watcher reported for one file.
#[derive(Clone, Copy, PartialEq, Eq, Structural, Debug)]
pub enum FileChangeType {
    Created,
    Changed,
    Deleted,
}

/// One watcher report. For `Created` and `Changed` the surroundings read
/// the file from disk before handing the event in; `text` is `None` when
/// that read failed.
pub struct FileChangeEvent {
    pub uri: Vec<u8>,
    pub kind: FileChangeType,
    pub text: Option<Vec<u8>>,
}

/// An inbound notification, already decoded from the wire.
pub enum NotificationEvent {
    Cancel { id: CancelId },
    DidOpen { uri: Vec<u8>, text: Vec<u8> },
    DidChange { uri: Vec<u8>, content_changes: Vec<Vec<u8>> },
    DidClose { uri: Vec<u8> },
    DidChangeWatchedFiles { changes: Vec<FileChangeEvent> },
    Unknown { method: String },
}

/// An inbound client message. Shutdown is handled at the framing layer
/// before a request reaches the loop.
pub enum RawMessage {
    Request(RawRequest),
    Notification(NotificationEvent),
    Response(RawResponse),
}

/// One event from the multiplexer: a client message, a worker task, a
/// filesystem-watcher task, or a finished library indexing.
pub enum Event {
    Msg(RawMessage),
    Task(Task),
    Vfs(VfsTask),
    Lib(LibraryData),
}

/// What a turn asks the surroundings to do, in order.
pub enum Action {
    /// Send a response to the client.
    SendResponse(RawResponse),
    /// Send a notification to the client.
    SendNotification(RawNotification),
    /// Move a request handler onto the pool, against the given snapshot;
    /// its result comes back as a `Task::Respond` for `id`.
    SpawnHandler { id: u64, method: String, params: Vec<u8>, snapshot: WorldSnapshot },
    /// Move the indexing of one library onto the pool; its result comes
    /// back as an `Event::Lib`.
    SpawnIndex { lib: LibraryData },
    /// Recompute and publish diagnostics (and decorations, when asked) for
    /// the subscribed documents, against the given snapshot.
    PublishUpdates { snapshot: WorldSnapshot, subscriptions: Vec<FileId>, publish_decorations: bool },
    /// Log a dropped or malformed input; the loop goes on.
    LogError { message: String },
}

/// Everything the loop thread owns.
pub struct ServerState {
    pub world: WorldState,
    pub pending_requests: PendingRequests,
    pub subs: Subscriptions,
    pub internal_mode: bool,
    pub supports_decorations: bool,
}

/// Result of one turn: the actions to perform, and — only for inputs the
/// server must not survive (a string cancellation id) — the fatal
/// diagnostic to abort with.
pub struct TurnResult {
    pub actions: Vec<Action>,
    pub fatal: Option<String>,
}

impl ServerState {
    pub open spec fn wf(&self) -> bool {
        &&& self.world.wf()
        &&& self.pending_requests.wf()
        &&& self.subs.wf()
    }

    pub fn new(root: Vec<u8>, n_roots: u32, internal_mode: bool, supports_decorations: bool) -> (r:
        ServerState)
        ensures
            r.wf(),
            r.world.roots_to_scan == n_roots,
            !r.world.loaded_sent(),
            r.world.vfs@ == Seq::<FileEntryView>::empty(),
            r.pending_requests@ == Set::<u64>::empty(),
            r.subs@ == Set::<FileId>::empty(),
            r.internal_mode == internal_mode,
            r.supports_decorations == supports_decorations,
    {
        ServerState {
            world: WorldState::new(root, n_roots),
            pending_requests: PendingRequests::new(),
            subs: Subscriptions::new(),
            internal_mode,
            supports_decorations,
        }
    }
}

/// Effect of an overlay add on (files, subscriptions): resolve the uri,
/// install the overlay, subscribe the file it names. The `bool` says
/// whether the uri resolved to a local path.
pub open spec fn add_file_spec(
    root: Seq<u8>,
    files: Seq<FileEntryView>,
    subs: Set<FileId>,
    uri: Seq<u8>,
    text: Seq<u8>,
) -> (Seq<FileEntryView>, Set<FileId>, bool) {
    match spec_uri_to_path(uri) {
        None => (files, subs, false),
        Some(path) => (
            apply_add(root, files, path, text),
            if is_prefix(root, path) {
                subs.insert(add_file_id(files, path))
            } else {
                subs
            },
            true,
        ),
    }
}

/// Effect of an overlay change on the files; no subscription change.
pub open spec fn change_file_spec(files: Seq<FileEntryView>, uri: Seq<u8>, text: Seq<u8>) -> (
    Seq<FileEntryView>,
    bool,
) {
    match spec_uri_to_path(uri) {
        None => (files, false),
        Some(path) => (apply_change(files, path, text), true),
    }
}

/// Effect of an overlay removal on (files, subscriptions): the file whose
/// overlay is removed is unsubscribed.
pub open spec fn remove_file_spec(
    files: Seq<FileEntryView>,
    subs: Set<FileId>,
    uri: Seq<u8>,
) -> (Seq<FileEntryView>, Set<FileId>, bool) {
    match spec_uri_to_path(uri) {
        None => (files, subs, false),
        Some(path) => (
            apply_remove(files, path),
            match spec_find(files, path) {
                Some(i) => if files[i].overlay is Some {
                    subs.remove(FileId(i as u32))
                } else {
                    subs
                },
                None => subs,
            },
            true,
        ),
    }
}

/// Install the overlay named by `uri` and subscribe its file. Fails, with
/// everything unchanged, exactly when the uri is not a local path.
pub fn add_file(vfs: &mut Vfs, subs: &mut Subscriptions, uri: &Vec<u8>, text: Vec<u8>) -> (r:
    Result<(), String>)
    requires
        old(vfs).wf(),
        old(vfs)@.len() < MAX_FILES,
        old(subs).wf(),
    ensures
        final(vfs).wf(),
        final(subs).wf(),
        final(vfs).root_view() == old(vfs).root_view(),
        ({
            let (files2, subs2, ok) = add_file_spec(
                old(vfs).root_view(),
                old(vfs)@,
                old(subs)@,
                uri@,
                text@,
            );
            &&& final(vfs)@ == files2
            &&& final(subs)@ == subs2
            &&& r is Ok == ok
        }),
        r matches Err(m) ==> m@ == "invalid uri"@,
{
    match uri_to_path(uri) {
        None => Err("invalid uri".to_owned()),
        Some(path) => {
            match vfs.add_file_overlay(&path, text) {
                Some(file_id) => {
                    subs.add_sub(file_id);
                },
                None => {
                    proof {
                        assert(subs@.insert(add_file_id(vfs@, path@)) == subs@ || !is_prefix(
                            vfs.root_view(),
                            path@,
                        ));
                    }
                },
            }
            Ok(())
        },
    }
}

/// Replace the overlay named by `uri`. Fails, with everything unchanged,
/// exactly when the uri is not a local path.
pub fn change_file(vfs: &mut Vfs, uri: &Vec<u8>, text: Vec<u8>) -> (r: Result<(), String>)
    requires
        old(vfs).wf(),
    ensures
        final(vfs).wf(),
        final(vfs).root_view() == old(vfs).root_view(),
        ({
            let (files2, ok) = change_file_spec(old(vfs)@, uri@, text@);
            &&& final(vfs)@ == files2
            &&& r is Ok == ok
        }),
        r matches Err(m) ==> m@ == "invalid uri"@,
{
    match uri_to_path(uri) {
        None => Err("invalid uri".to_owned()),
        Some(path) => {
            vfs.change_file_overlay(&path, text);
            Ok(())
        },
    }
}

/// Remove the overlay named by `uri` and unsubscribe its file; the
/// returned notification clears the document's stale diagnostics and is
/// sent whether or not an overlay was present. Fails, with everything
/// unchanged, exactly when the uri is not a local path.
pub fn remove_file(vfs: &mut Vfs, subs: &mut Subscriptions, uri: &Vec<u8>) -> (r: Result<
    RawNotification,
    String,
>)
    requires
        old(vfs).wf(),
        old(subs).wf(),
    ensures
        final(vfs).wf(),
        final(subs).wf(),
        final(vfs).root_view() == old(vfs).root_view(),
        ({
            let (files2, subs2, ok) = remove_file_spec(old(vfs)@, old(subs)@, uri@);
            &&& final(vfs)@ == files2
            &&& final(subs)@ == subs2
            &&& r is Ok == ok
        }),
        r matches Ok(n) ==> n matches RawNotification::PublishDiagnostics { uri: u, diagnostics }
            && u@ == uri@ && diagnostics@.len() == 0,
        r matches Err(m) ==> m@ == "invalid uri"@,
{
    match uri_to_path(uri) {
        None => Err("invalid uri".to_owned()),
        Some(path) => {
            match vfs.remove_file_overlay(&path) {
                Some(file_id) => {
                    subs.remove_sub(file_id);
                },
                None => {},
            }
            Ok(RawNotification::PublishDiagnostics { uri: uri.clone(), diagnostics: Vec::new() })
        },
    }
}

/// Forward one worker task: a response goes out only while its id is still
/// pending (a cancelled request's late response is dropped); notifications
/// always go out.
pub fn on_task(task: Task, pending_requests: &mut PendingRequests) -> (r: Option<Task>)
    requires
        old(pending_requests).wf(),
    ensures
        final(pending_requests).wf(),
        match task {
            Task::Respond(resp) => {
                if old(pending_requests)@.contains(resp.id) {
                    final(pending_requests)@ == old(pending_requests)@.remove(resp.id) && r
                        == Some(Task::Respond(resp))
                } else {
                    final(pending_requests)@ == old(pending_requests)@ && r is None
                }
            },
            Task::Notify(n) => final(pending_requests)@ == old(pending_requests)@ && r == Some(
                Task::Notify(n),
            ),
        },
{
    match task {
        Task::Respond(response) => {
            if pending_requests.remove(response.id) {
                Some(Task::Respond(response))
            } else {
                None
            }
        },
        Task::Notify(n) => Some(Task::Notify(n)),
    }
}

/// The request's method is in the table.
pub open spec fn method_known(m: Seq<char>, methods: Seq<String>) -> bool {
    exists|k: int| 0 <= k < methods.len() && methods[k]@ == m
}

/// Route one request: a known method is registered as pending and its
/// handler moved onto the pool against a fresh snapshot; an unknown method
/// is answered with `MethodNotFound` at once.
pub fn on_request(state: &mut ServerState, methods: &Vec<String>, req: RawRequest) -> (actions: Vec<
    Action,
>)
    requires
        old(state).wf(),
        method_known(req.method@, methods@) ==> !old(state).pending_requests@.contains(req.id),
    ensures
        final(state).wf(),
        final(state).world == old(state).world,
        final(state).subs == old(state).subs,
        final(state).internal_mode == old(state).internal_mode,
        final(state).supports_decorations == old(state).supports_decorations,
        actions@.len() == 1,
        if method_known(req.method@, methods@) {
            &&& final(state).pending_requests@ == old(state).pending_requests@.insert(req.id)
            &&& actions@[0] matches Action::SpawnHandler { id, method, params, snapshot } && id
                == req.id && method@ == req.method@ && params == req.params && snapshot.vfs@ == old(state).world.vfs@
        } else {
            &&& final(state).pending_requests@ == old(state).pending_requests@
            &&& actions@[0] matches Action::SendResponse(resp) && resp.id == req.id && resp.result
                is None && (resp.error matches Some(e) && e.code == ERROR_CODE_METHOD_NOT_FOUND
                && e.message@ == "unknown request"@)
        },
{
    let mut actions: Vec<Action> = Vec::new();
    match route_request(req, methods) {
        RouteResult::Routed { id, method, params } => {
            let snapshot = state.world.snapshot();
            let inserted = state.pending_requests.insert(id);
            proof {
                assert(inserted);
            }
            actions.push(Action::SpawnHandler { id, method, params, snapshot });
        },
        RouteResult::Unknown { req } => {
            actions.push(
                Action::SendResponse(
                    RawResponse::err(req.id, ERROR_CODE_METHOD_NOT_FOUND, "unknown request".to_owned()),
                ),
            );
        },
    }
    actions
}

/// Effect of one watcher report on (files, subscriptions): created and
/// changed files whose disk read succeeded are installed or refreshed as
/// overlays, deleted files lose theirs; a failed read or an unresolvable
/// uri changes nothing.
pub open spec fn apply_watch_change(
    root: Seq<u8>,
    files: Seq<FileEntryView>,
    subs: Set<FileId>,
    c: FileChangeEvent,
) -> (Seq<FileEntryView>, Set<FileId>) {
    match c.kind {
        FileChangeType::Created => match c.text {
            Some(t) => {
                let (f2, s2, ok) = add_file_spec(root, files, subs, c.uri@, t@);
                (f2, s2)
            },
            None => (files, subs),
        },
        FileChangeType::Changed => match c.text {
            Some(t) => {
                let (f2, ok) = change_file_spec(files, c.uri@, t@);
                (f2, subs)
            },
            None => (files, subs),
        },
        FileChangeType::Deleted => {
            let (f2, s2, ok) = remove_file_spec(files, subs, c.uri@);
            (f2, s2)
        },
    }
}

/// (files, subscriptions) after a whole watcher report list, in order.
pub open spec fn watch_fold(
    root: Seq<u8>,
    files: Seq<FileEntryView>,
    subs: Set<FileId>,
    changes: Seq<FileChangeEvent>,
) -> (Seq<FileEntryView>, Set<FileId>)
    decreases changes.len(),
{
    if changes.len() == 0 {
        (files, subs)
    } else {
        let (f2, s2) = watch_fold(root, files, subs, changes.drop_last());
        apply_watch_change(root, f2, s2, changes.last())
    }
}

/// The uris whose stale diagnostics a watcher report list clears, in
/// order: each deletion whose uri names a local path publishes one empty
/// diagnostics notification, whether or not an overlay was present.
pub open spec fn watch_clears(changes: Seq<FileChangeEvent>) -> Seq<Seq<u8>>
    decreases changes.len(),
{
    if changes.len() == 0 {
        Seq::empty()
    } else {
        watch_clears(changes.drop_last()) + (match changes.last().kind {
            FileChangeType::Deleted => if spec_uri_to_path(changes.last().uri@) is Some {
                seq![changes.last().uri@]
            } else {
                Seq::<Seq<u8>>::empty()
            },
            _ => Seq::<Seq<u8>>::empty(),
        })
    }
}

/// Entries one notification can add to the file table, for the capacity
/// bound.
pub open spec fn notification_capacity(not: NotificationEvent) -> nat {
    match not {
        NotificationEvent::DidOpen { .. } => 1,
        NotificationEvent::DidChangeWatchedFiles { changes } => changes@.len(),
        _ => 0,
    }
}

/// Outcome of one notification: the actions to perform, the fatal
/// diagnostic for inputs the server must not survive, and whether document
/// state changed (which schedules republication).
pub struct NotifOutcome {
    pub actions: Vec<Action>,
    pub fatal: Option<String>,
    pub state_changed: bool,
}

/// Handle one inbound notification, in the order the protocol gives them:
/// cancellation, document open/change/close, watcher reports; anything
/// else is logged and dropped. Malformed inputs (a uri that is no local
/// path, an empty change list, a failed disk read) are logged and dropped
/// without state change; a string cancellation id is fatal.
pub fn on_notification(state: &mut ServerState, not: NotificationEvent) -> (r: NotifOutcome)
    requires
        old(state).wf(),
        old(state).world.vfs@.len() + notification_capacity(not) <= MAX_FILES,
    ensures
        final(state).wf(),
        final(state).world.roots_to_scan == old(state).world.roots_to_scan,
        final(state).world.loaded_sent() == old(state).world.loaded_sent(),
        final(state).world.unindexed_view() == old(state).world.unindexed_view(),
        final(state).world.vfs.root_view() == old(state).world.vfs.root_view(),
        final(state).internal_mode == old(state).internal_mode,
        final(state).supports_decorations == old(state).supports_decorations,
        forall|k: int|
            0 <= k < r.actions@.len() ==> !(r.actions@[k] is SpawnHandler) && !(r.actions@[k]
                is SpawnIndex) && !(r.actions@[k] is PublishUpdates),
        match not {
            NotificationEvent::Cancel { id: CancelId::Number(id) } => {
                &&& r.fatal is None
                &&& final(state).world.vfs@ == old(state).world.vfs@
                &&& final(state).subs@ == old(state).subs@
                &&& !r.state_changed
                &&& final(state).pending_requests@ == old(state).pending_requests@.remove(id)
                &&& if old(state).pending_requests@.contains(id) {
                    r.actions@.len() == 1 && (r.actions@[0] matches Action::SendResponse(resp)
                        && resp.id == id && resp.result is None && (resp.error matches Some(e)
                        && e.code == ERROR_CODE_REQUEST_CANCELLED && e.message@
                        == "canceled by client"@))
                } else {
                    r.actions@.len() == 0
                }
            },
            NotificationEvent::Cancel { id: CancelId::Text(_) } => {
                &&& r.fatal matches Some(m) && m@ == "string request ids are not supported"@
                &&& final(state).pending_requests@ == old(state).pending_requests@
                &&& final(state).world.vfs@ == old(state).world.vfs@
                &&& final(state).subs@ == old(state).subs@
                &&& !r.state_changed
                &&& r.actions@.len() == 0
            },
            NotificationEvent::DidOpen { uri, text } => {
                let (files2, subs2, ok) = add_file_spec(
                    old(state).world.vfs.root_view(),
                    old(state).world.vfs@,
                    old(state).subs@,
                    uri@,
                    text@,
                );
                &&& r.fatal is None
                &&& final(state).pending_requests@ == old(state).pending_requests@
                &&& final(state).world.vfs@ == files2
                &&& final(state).subs@ == subs2
                &&& r.state_changed == ok
                &&& (ok ==> r.actions@.len() == 0)
                &&& (!ok ==> r.actions@.len() == 1 && r.actions@[0] is LogError)
            },
            NotificationEvent::DidChange { uri, content_changes } => {
                &&& r.fatal is None
                &&& final(state).pending_requests@ == old(state).pending_requests@
                &&& final(state).subs@ == old(state).subs@
                &&& if content_changes@.len() == 0 {
                    &&& final(state).world.vfs@ == old(state).world.vfs@
                    &&& !r.state_changed
                    &&& r.actions@.len() == 1 && r.actions@[0] is LogError
                } else {
                    let (files2, ok) = change_file_spec(
                        old(state).world.vfs@,
                        uri@,
                        content_changes@.last()@,
                    );
                    &&& final(state).world.vfs@ == files2
                    &&& r.state_changed == ok
                    &&& (ok ==> r.actions@.len() == 0)
                    &&& (!ok ==> r.actions@.len() == 1 && r.actions@[0] is LogError)
                }
            },
            NotificationEvent::DidClose { uri } => {
                let (files2, subs2, ok) = remove_file_spec(
                    old(state).world.vfs@,
                    old(state).subs@,
                    uri@,
                );
                &&& r.fatal is None
                &&& final(state).pending_requests@ == old(state).pending_requests@
                &&& final(state).world.vfs@ == files2
                &&& final(state).subs@ == subs2
                &&& r.state_changed == ok
                &&& (ok ==> r.actions@.len() == 1 && (r.actions@[0] matches
                    Action::SendNotification(n) && (n matches
                    RawNotification::PublishDiagnostics { uri: u, diagnostics } && u@ == uri@
                    && diagnostics@.len() == 0)))
                &&& (!ok ==> r.actions@.len() == 1 && r.actions@[0] is LogError)
            },
            NotificationEvent::DidChangeWatchedFiles { changes } => {
                let (files2, subs2) = watch_fold(
                    old(state).world.vfs.root_view(),
                    old(state).world.vfs@,
                    old(state).subs@,
                    changes@,
                );
                &&& r.fatal is None
                &&& final(state).pending_requests@ == old(state).pending_requests@
                &&& final(state).world.vfs@ == files2
                &&& final(state).subs@ == subs2
                &&& r.state_changed == (changes@.len() > 0)
                &&& clear_uris(r.actions@) == watch_clears(changes@)
                &&& forall|k: int|
                    0 <= k < r.actions@.len() ==> (r.actions@[k] is LogError || (
                    r.actions@[k] matches Action::SendNotification(n) && (n matches
                    RawNotification::PublishDiagnostics { uri: u, diagnostics } && diagnostics@.len()
                        == 0)))
            },
            NotificationEvent::Unknown { .. } => {
                &&& r.fatal is None
                &&& final(state).pending_requests@ == old(state).pending_requests@
                &&& final(state).world.vfs@ == old(state).world.vfs@
                &&& final(state).subs@ == old(state).subs@
                &&& !r.state_changed
                &&& r.actions@.len() == 1 && r.actions@[0] is LogError
            },
        },
{
    broadcast use lemma_clear_uris_push;

    let mut actions: Vec<Action> = Vec::new();
    match not {
        NotificationEvent::Cancel { id } => {
            match id {
                CancelId::Number(id) => {
                    if state.pending_requests.remove(id) {
                        actions.push(
                            Action::SendResponse(
                                RawResponse::err(
                                    id,
                                    ERROR_CODE_REQUEST_CANCELLED,
                                    "canceled by client".to_owned(),
                                ),
                            ),
                        );
                    }
                    NotifOutcome { actions, fatal: None, state_changed: false }
                },
                CancelId::Text(_) => NotifOutcome {
                    actions,
                    fatal: Some("string request ids are not supported".to_owned()),
                    state_changed: false,
                },
            }
        },
        NotificationEvent::DidOpen { uri, text } => {
            match add_file(&mut state.world.vfs, &mut state.subs, &uri, text) {
                Ok(()) => NotifOutcome { actions, fatal: None, state_changed: true },
                Err(message) => {
                    actions.push(Action::LogError { message });
                    NotifOutcome { actions, fatal: None, state_changed: false }
                },
            }
        },
        NotificationEvent::DidChange { uri, content_changes } => {
            let mut content_changes = content_changes;
            match content_changes.pop() {
                None => {
                    actions.push(Action::LogError { message: "empty changes".to_owned() });
                    NotifOutcome { actions, fatal: None, state_changed: false }
                },
                Some(text) => {
                    match change_file(&mut state.world.vfs, &uri, text) {
                        Ok(()) => NotifOutcome { actions, fatal: None, state_changed: true },
                        Err(message) => {
                            actions.push(Action::LogError { message });
                            NotifOutcome { actions, fatal: None, state_changed: false }
                        },
                    }
                },
            }
        },
        NotificationEvent::DidClose { uri } => {
            match remove_file(&mut state.world.vfs, &mut state.subs, &uri) {
                Ok(n) => {
                    actions.push(Action::SendNotification(n));
                    NotifOutcome { actions, fatal: None, state_changed: true }
                },
                Err(message) => {
                    actions.push(Action::LogError { message });
                    NotifOutcome { actions, fatal: None, state_changed: false }
                },
            }
        },
        NotificationEvent::DidChangeWatchedFiles { changes } => {
            let ghost root = state.world.vfs.root_view();
            let ghost files0 = state.world.vfs@;
            let ghost subs0 = state.subs@;
            let n_changes = changes.len();
            let mut i: usize = 0;
            while i < changes.len()
                invariant
                    state.wf(),
                    0 <= i <= changes@.len(),
                    state.world.vfs@.len() <= files0.len() + i,
                    files0.len() + changes@.len() <= MAX_FILES,
                    state.world.vfs.root_view() == root,
                    (state.world.vfs@, state.subs@) == watch_fold(
                        root,
                        files0,
                        subs0,
                        changes@.subrange(0, i as int),
                    ),
                    clear_uris(actions@) == watch_clears(changes@.subrange(0, i as int)),
                    state.pending_requests == old(state).pending_requests,
                    state.world.roots_to_scan == old(state).world.roots_to_scan,
                    state.world.ws_loaded_sent == old(state).world.ws_loaded_sent,
                    state.world.unindexed == old(state).world.unindexed,
                    state.internal_mode == old(state).internal_mode,
                    state.supports_decorations == old(state).supports_decorations,
                    forall|k: int|
                        0 <= k < actions@.len() ==> (actions@[k] is LogError || (
                        actions@[k] matches Action::SendNotification(n) && (n matches
                        RawNotification::PublishDiagnostics { uri: u, diagnostics }
                        && diagnostics@.len() == 0))),
                decreases changes@.len() - i,
            {
                let change = &changes[i];
                let ghost fs_pre = state.world.vfs@;
                let ghost subs_pre = state.subs@;
                let ghost acts_pre = actions@;
                match change.kind {
                    FileChangeType::Created => {
                        match &change.text {
                            Some(text) => {
                                match add_file(
                                    &mut state.world.vfs,
                                    &mut state.subs,
                                    &change.uri,
                                    text.clone(),
                                ) {
                                    Ok(()) => {},
                                    Err(message) => {
                                        actions.push(Action::LogError { message });
                                    },
                                }
                            },
                            None => {
                                actions.push(
                                    Action::LogError { message: "failed to read file".to_owned() },
                                );
                            },
                        }
                    },
                    FileChangeType::Changed => {
                        match &change.text {
                            Some(text) => {
                                match change_file(&mut state.world.vfs, &change.uri, text.clone()) {
                                    Ok(()) => {},
                                    Err(message) => {
                                        actions.push(Action::LogError { message });
                                    },
                                }
                            },
                            None => {
                                actions.push(
                                    Action::LogError { message: "failed to read file".to_owned() },
                                );
                            },
                        }
                    },
                    FileChangeType::Deleted => {
                        match remove_file(&mut state.world.vfs, &mut state.subs, &change.uri) {
                            Ok(n) => {
                                actions.push(Action::SendNotification(n));
                            },
                            Err(message) => {
                                actions.push(Action::LogError { message });
                            },
                        }
                    },
                }
                proof {
                    if actions@.len() > acts_pre.len() {
                        assert(actions@ == acts_pre.push(actions@.last()));
                        lemma_clear_uris_push(acts_pre, actions@.last());
                    }
                    assert((state.world.vfs@, state.subs@) == apply_watch_change(
                        root,
                        fs_pre,
                        subs_pre,
                        changes@[i as int],
                    ));
                    assert(changes@.subrange(0, i + 1).drop_last() =~= changes@.subrange(
                        0,
                        i as int,
                    ));
                    assert(changes@.subrange(0, i + 1).last() == changes@[i as int]);
                    assert(clear_uris(actions@) =~= watch_clears(changes@.subrange(0, i + 1)));
                }
                i += 1;
            }
            proof {
                assert(changes@.subrange(0, changes@.len() as int) =~= changes@);
            }
            NotifOutcome { actions, fatal: None, state_changed: n_changes > 0 }
        },
        NotificationEvent::Unknown { .. } => {
            actions.push(Action::LogError { message: "unhandled notification".to_owned() });
            NotifOutcome { actions, fatal: None, state_changed: false }
        },
    }
}

/// The error code a response carries, or `None` for a success.
pub open spec fn response_code(resp: RawResponse) -> Option<i32> {
    match resp.error {
        Some(e) => Some(e.code),
        None => None,
    }
}

/// The responses among `actions`, in order, as (id, error code) records:
/// the turn's outbound responses.
pub open spec fn response_records(actions: Seq<Action>) -> Seq<(u64, Option<i32>)>
    decreases actions.len(),
{
    if actions.len() == 0 {
        Seq::empty()
    } else {
        response_records(actions.drop_last()) + (match actions.last() {
            Action::SendResponse(resp) => seq![(resp.id, response_code(resp))],
            _ => Seq::empty(),
        })
    }
}

/// The libraries whose indexing `actions` moves onto the pool, in order.
pub open spec fn spawn_index_libs(actions: Seq<Action>) -> Seq<LibraryData>
    decreases actions.len(),
{
    if actions.len() == 0 {
        Seq::empty()
    } else {
        spawn_index_libs(actions.drop_last()) + (match actions.last() {
            Action::SpawnIndex { lib } => seq![lib],
            _ => Seq::empty(),
        })
    }
}

/// How many handlers `actions` moves onto the pool.
pub open spec fn spawn_handler_count(actions: Seq<Action>) -> nat
    decreases actions.len(),
{
    if actions.len() == 0 {
        0
    } else {
        spawn_handler_count(actions.drop_last()) + (if actions.last() is SpawnHandler {
            1nat
        } else {
            0nat
        })
    }
}

/// How many feedback notifications carrying `message` the actions send.
pub open spec fn internal_feedback_count(actions: Seq<Action>, message: Seq<char>) -> nat
    decreases actions.len(),
{
    if actions.len() == 0 {
        0
    } else {
        internal_feedback_count(actions.drop_last(), message) + (match actions.last() {
            Action::SendNotification(RawNotification::InternalFeedback { message: m }) => if m@
                == message {
                1nat
            } else {
                0nat
            },
            _ => 0nat,
        })
    }
}

/// The uris whose stale diagnostics the actions clear (an empty diagnostics
/// publication), in order.
pub open spec fn clear_uris(actions: Seq<Action>) -> Seq<Seq<u8>>
    decreases actions.len(),
{
    if actions.len() == 0 {
        Seq::empty()
    } else {
        clear_uris(actions.drop_last()) + (match actions.last() {
            Action::SendNotification(RawNotification::PublishDiagnostics { uri, diagnostics }) => {
                if diagnostics@.len() == 0 {
                    seq![uri@]
                } else {
                    Seq::empty()
                }
            },
            _ => Seq::empty(),
        })
    }
}

/// How many republication jobs `actions` schedules.
pub open spec fn publish_count(actions: Seq<Action>) -> nat
    decreases actions.len(),
{
    if actions.len() == 0 {
        0
    } else {
        publish_count(actions.drop_last()) + (if actions.last() is PublishUpdates {
            1nat
        } else {
            0nat
        })
    }
}

/// Unfolding of the action projections over a push.
pub broadcast proof fn lemma_response_records_push(s: Seq<Action>, a: Action)
    ensures
        #[trigger] response_records(s.push(a)) == response_records(s) + (match a {
            Action::SendResponse(resp) => seq![(resp.id, response_code(resp))],
            _ => Seq::<(u64, Option<i32>)>::empty(),
        }),
{
    assert(s.push(a).drop_last() =~= s);
    assert(s.push(a).last() == a);
}

pub broadcast proof fn lemma_clear_uris_push(s: Seq<Action>, a: Action)
    ensures
        #[trigger] clear_uris(s.push(a)) == clear_uris(s) + (match a {
            Action::SendNotification(RawNotification::PublishDiagnostics { uri, diagnostics }) => {
                if diagnostics@.len() == 0 {
                    seq![uri@]
                } else {
                    Seq::<Seq<u8>>::empty()
                }
            },
            _ => Seq::<Seq<u8>>::empty(),
        }),
{
    assert(s.push(a).drop_last() =~= s);
    assert(s.push(a).last() == a);
}

pub broadcast proof fn lemma_spawn_index_libs_push(s: Seq<Action>, a: Action)
    ensures
        #[trigger] spawn_index_libs(s.push(a)) == spawn_index_libs(s) + (match a {
            Action::SpawnIndex { lib } => seq![lib],
            _ => Seq::<LibraryData>::empty(),
        }),
{
    assert(s.push(a).drop_last() =~= s);
    assert(s.push(a).last() == a);
}

pub broadcast proof fn lemma_spawn_handler_count_push(s: Seq<Action>, a: Action)
    ensures
        #[trigger] spawn_handler_count(s.push(a)) == spawn_handler_count(s) + (
        if a is SpawnHandler {
            1nat
        } else {
            0nat
        }),
{
    assert(s.push(a).drop_last() =~= s);
    assert(s.push(a).last() == a);
}

pub broadcast proof fn lemma_internal_feedback_count_push(s: Seq<Action>, a: Action, message: Seq<char>)
    ensures
        #[trigger] internal_feedback_count(s.push(a), message) == internal_feedback_count(
            s,
            message,
        ) + (match a {
            Action::SendNotification(RawNotification::InternalFeedback { message: m }) => if m@
                == message {
                1nat
            } else {
                0nat
            },
            _ => 0nat,
        }),
{
    assert(s.push(a).drop_last() =~= s);
    assert(s.push(a).last() == a);
}

pub broadcast proof fn lemma_publish_count_push(s: Seq<Action>, a: Action)
    ensures
        #[trigger] publish_count(s.push(a)) == publish_count(s) + (if a is PublishUpdates {
            1nat
        } else {
            0nat
        }),
{
    assert(s.push(a).drop_last() =~= s);
    assert(s.push(a).last() == a);
}

/// A list of logs and plain notifications projects to nothing: it sends no
/// response, spawns nothing, publishes nothing, emits no feedback.
pub proof fn lemma_projections_inert(actions: Seq<Action>)
    requires
        forall|k: int|
            0 <= k < actions.len() ==> (actions[k] is LogError || (actions[k] matches
            Action::SendNotification(n) && n is PublishDiagnostics)),
    ensures
        response_records(actions) == Seq::<(u64, Option<i32>)>::empty(),
        spawn_index_libs(actions) == Seq::<LibraryData>::empty(),
        spawn_handler_count(actions) == 0,
        forall|m: Seq<char>| #[trigger] internal_feedback_count(actions, m) == 0,
        publish_count(actions) == 0,
    decreases actions.len(),
{
    if actions.len() > 0 {
        lemma_projections_inert(actions.drop_last());
        assert(actions[actions.len() - 1] is LogError || (actions[actions.len() - 1] matches
            Action::SendNotification(n) && n is PublishDiagnostics));
        assert(response_records(actions) =~= Seq::<(u64, Option<i32>)>::empty());
        assert(spawn_index_libs(actions) =~= Seq::<LibraryData>::empty());
        assert forall|m: Seq<char>| #[trigger] internal_feedback_count(actions, m) == 0 by {
            assert(internal_feedback_count(actions.drop_last(), m) == 0);
        }
    }
}

/// The pending set after one turn: a forwarded response or a numeric
/// cancellation removes its id, an accepted request's id becomes pending.
pub open spec fn turn_pending(p: Set<u64>, event: Event, methods: Seq<String>) -> Set<u64> {
    match event {
        Event::Task(Task::Respond(resp)) => p.remove(resp.id),
        Event::Msg(RawMessage::Request(req)) => if method_known(req.method@, methods) {
            p.insert(req.id)
        } else {
            p
        },
        Event::Msg(
            RawMessage::Notification(NotificationEvent::Cancel { id: CancelId::Number(id) }),
        ) => p.remove(id),
        _ => p,
    }
}

/// The responses one turn sends, as (id, error code) records: a worker
/// response goes out verbatim while its id is still pending; an unknown
/// method is answered `MethodNotFound` at once; an effective cancellation
/// is answered `RequestCancelled` at once. Nothing else responds.
pub open spec fn turn_responses(p: Set<u64>, event: Event, methods: Seq<String>) -> Seq<
    (u64, Option<i32>),
> {
    match event {
        Event::Task(Task::Respond(resp)) => if p.contains(resp.id) {
            seq![(resp.id, response_code(resp))]
        } else {
            Seq::empty()
        },
        Event::Msg(RawMessage::Request(req)) => if method_known(req.method@, methods) {
            Seq::empty()
        } else {
            seq![(req.id, Some(ERROR_CODE_METHOD_NOT_FOUND))]
        },
        Event::Msg(
            RawMessage::Notification(NotificationEvent::Cancel { id: CancelId::Number(id) }),
        ) => if p.contains(id) {
            seq![(id, Some(ERROR_CODE_REQUEST_CANCELLED))]
        } else {
            Seq::empty()
        },
        _ => Seq::empty(),
    }
}

/// Feedback notifications the turn merely forwards: a worker may itself
/// send one through the task channel.
pub open spec fn forwarded_feedback_count(event: Event, message: Seq<char>) -> nat {
    match event {
        Event::Task(Task::Notify(RawNotification::InternalFeedback { message: m })) => if m@
            == message {
            1nat
        } else {
            0nat
        },
        _ => 0nat,
    }
}

/// The documents part (tracked files, subscriptions) after one turn.
pub open spec fn turn_docs(
    root: Seq<u8>,
    files: Seq<FileEntryView>,
    subs: Set<FileId>,
    event: Event,
) -> (Seq<FileEntryView>, Set<FileId>) {
    match event {
        Event::Vfs(task) => (apply_vfs_task(root, files, task), subs),
        Event::Msg(RawMessage::Notification(not)) => notif_docs(root, files, subs, not),
        _ => (files, subs),
    }
}

/// The documents part after one notification.
pub open spec fn notif_docs(
    root: Seq<u8>,
    files: Seq<FileEntryView>,
    subs: Set<FileId>,
    not: NotificationEvent,
) -> (Seq<FileEntryView>, Set<FileId>) {
    match not {
        NotificationEvent::DidOpen { uri, text } => {
            let (f2, s2, ok) = add_file_spec(root, files, subs, uri@, text@);
            (f2, s2)
        },
        NotificationEvent::DidChange { uri, content_changes } => {
            if content_changes@.len() == 0 {
                (files, subs)
            } else {
                let (f2, ok) = change_file_spec(files, uri@, content_changes@.last()@);
                (f2, subs)
            }
        },
        NotificationEvent::DidClose { uri } => {
            let (f2, s2, ok) = remove_file_spec(files, subs, uri@);
            (f2, s2)
        },
        NotificationEvent::DidChangeWatchedFiles { changes } => watch_fold(
            root,
            files,
            subs,
            changes@,
        ),
        _ => (files, subs),
    }
}

/// Whether one turn changed document state, scheduling republication.
pub open spec fn turn_changed(files: Seq<FileEntryView>, event: Event) -> bool {
    match event {
        Event::Vfs(_) => true,
        Event::Msg(RawMessage::Notification(not)) => match not {
            NotificationEvent::DidOpen { uri, .. } => spec_uri_to_path(uri@) is Some,
            NotificationEvent::DidChange { uri, content_changes } => content_changes@.len() > 0
                && spec_uri_to_path(uri@) is Some,
            NotificationEvent::DidClose { uri } => spec_uri_to_path(uri@) is Some,
            NotificationEvent::DidChangeWatchedFiles { changes } => changes@.len() > 0,
            _ => false,
        },
        _ => false,
    }
}

/// Entries one event can add to the file table, for the capacity bound.
pub open spec fn event_capacity(event: Event) -> nat {
    match event {
        Event::Msg(RawMessage::Notification(not)) => notification_capacity(not),
        Event::Vfs(_) => 1,
        _ => 0,
    }
}

/// One turn of the loop. Dispatch the event by variant; then drain the
/// libraries that became ready and move their indexing onto the pool; then
/// emit the one-shot "workspace loaded" feedback if the scan counter is at
/// zero; then, if document state changed, schedule republication for the
/// subscribed documents against a fresh snapshot.
#[verifier::loop_isolation(false)]
#[verifier::rlimit(60)]
pub fn loop_turn(state: &mut ServerState, methods: &Vec<String>, event: Event) -> (r: TurnResult)
    requires
        old(state).wf(),
        old(state).world.vfs@.len() + event_capacity(event) <= MAX_FILES,
        (event is Lib ==> old(state).world.roots_to_scan > 0),
        (match event {
            Event::Msg(RawMessage::Request(req)) => method_known(req.method@, methods@) ==> !old(state).pending_requests@.contains(req.id),
            _ => true,
        }),
    ensures
        final(state).wf(),
        final(state).internal_mode == old(state).internal_mode,
        final(state).supports_decorations == old(state).supports_decorations,
        final(state).world.vfs.root_view() == old(state).world.vfs.root_view(),
        // pending requests and outbound responses: one removal, one response
        final(state).pending_requests@ == turn_pending(
            old(state).pending_requests@,
            event,
            methods@,
        ),
        response_records(r.actions@) == turn_responses(
            old(state).pending_requests@,
            event,
            methods@,
        ),
        // document state
        (final(state).world.vfs@, final(state).subs@) == turn_docs(
            old(state).world.vfs.root_view(),
            old(state).world.vfs@,
            old(state).subs@,
            event,
        ),
        // scan counter and the one-shot feedback latch
        final(state).world.roots_to_scan == old(state).world.roots_to_scan - (if event is Lib {
            1int
        } else {
            0int
        }),
        final(state).world.loaded_sent() == (old(state).world.loaded_sent() || (final(state).world.roots_to_scan == 0 && old(state).internal_mode)),
        internal_feedback_count(r.actions@, "workspace loaded"@) == (if final(state).world.roots_to_scan == 0 && !old(state).world.loaded_sent() && old(state).internal_mode {
            1nat
        } else {
            0nat
        }) + forwarded_feedback_count(event, "workspace loaded"@),
        internal_feedback_count(r.actions@, "library loaded"@) == (if event is Lib && old(state).internal_mode {
            1nat
        } else {
            0nat
        }) + forwarded_feedback_count(event, "library loaded"@),
        // ready libraries all move onto the pool, in order
        final(state).world.unindexed_view() == Seq::<LibraryData>::empty(),
        spawn_index_libs(r.actions@) == old(state).world.unindexed_view(),
        // handlers: exactly one spawn for an accepted request, none else
        spawn_handler_count(r.actions@) == (match event {
            Event::Msg(RawMessage::Request(req)) => if method_known(req.method@, methods@) {
                1nat
            } else {
                0nat
            },
            _ => 0nat,
        }),
        (forall|k: int|
            0 <= k < r.actions@.len() ==> (#[trigger] r.actions@[k] matches Action::SpawnHandler {
                id,
                method,
                params,
                snapshot,
            } ==> (event matches Event::Msg(RawMessage::Request(req)) && id == req.id && method@
                == req.method@ && params == req.params && snapshot.vfs@ == old(state).world.vfs@))),
        // republication: scheduled exactly when document state changed
        publish_count(r.actions@) == (if turn_changed(old(state).world.vfs@, event) {
            1nat
        } else {
            0nat
        }),
        (forall|k: int|
            0 <= k < r.actions@.len() ==> (#[trigger] r.actions@[k] matches Action::PublishUpdates {
                snapshot,
                subscriptions,
                publish_decorations,
            } ==> (snapshot.vfs@ == final(state).world.vfs@ && subscriptions@.to_set() == final(state).subs@ && publish_decorations == old(state).supports_decorations))),
        // the loop survives everything but a string cancellation id
        (r.fatal is Some) == (event matches Event::Msg(
            RawMessage::Notification(NotificationEvent::Cancel { id: CancelId::Text(_) }),
        )),
{
    broadcast use lemma_response_records_push;
    broadcast use lemma_spawn_index_libs_push;
    broadcast use lemma_spawn_handler_count_push;
    broadcast use lemma_internal_feedback_count_push;
    broadcast use lemma_publish_count_push;

    proof {
        reveal_strlit("workspace loaded");
        reveal_strlit("library loaded");
        assert("library loaded"@.len() == 14);
        assert("workspace loaded"@.len() == 16);
        assert("library loaded"@ != "workspace loaded"@);
    }
    let ghost evt = event;
    let ghost pre_files = state.world.vfs@;
    let mut actions: Vec<Action> = Vec::new();
    let mut state_changed = false;
    let mut fatal: Option<String> = None;
    match event {
        Event::Task(task) => {
            match on_task(task, &mut state.pending_requests) {
                Some(t) => match t {
                    Task::Respond(resp) => actions.push(Action::SendResponse(resp)),
                    Task::Notify(n) => actions.push(Action::SendNotification(n)),
                },
                None => {},
            }
        },
        Event::Vfs(task) => {
            state.world.vfs.handle_task(task);
            state_changed = true;
        },
        Event::Lib(lib) => {
            if state.internal_mode {
                actions.push(
                    Action::SendNotification(
                        RawNotification::InternalFeedback { message: "library loaded".to_owned() },
                    ),
                );
            }
            state.world.add_lib(lib);
        },
        Event::Msg(msg) => match msg {
            RawMessage::Request(req) => {
                let mut request_actions = on_request(state, methods, req);
                let ghost rav = request_actions@;
                proof {
                    assert(rav =~= Seq::<Action>::empty().push(rav[0]));
                }
                actions.append(&mut request_actions);
                proof {
                    assert(actions@ =~= rav);
                }
            },
            RawMessage::Notification(not) => {
                let mut out = on_notification(state, not);
                let ghost outv = out.actions@;
                proof {
                    if outv.len() == 1 {
                        assert(outv =~= Seq::<Action>::empty().push(outv[0]));
                    } else if outv.len() > 1 {
                        lemma_projections_inert(outv);
                    }
                }
                state_changed = out.state_changed;
                fatal = out.fatal;
                actions.append(&mut out.actions);
                proof {
                    assert(actions@ =~= outv);
                }
            },
            RawMessage::Response(resp) => {
                if resp.id != REGISTER_WATCHER_ID {
                    actions.push(Action::LogError { message: "unexpected response".to_owned() });
                }
            },
        },
    }
    let ghost seg0 = actions@;
    let libs = state.world.process_changes();
    let mut li: usize = 0;
    while li < libs.len()
        invariant
            0 <= li <= libs@.len(),
            seg0.len() <= actions@.len(),
            actions@.subrange(0, seg0.len() as int) == seg0,
            forall|j: int| seg0.len() <= j < actions@.len() ==> #[trigger] actions@[j] is SpawnIndex,
            response_records(actions@) == response_records(seg0),
            spawn_index_libs(actions@) == spawn_index_libs(seg0) + libs@.subrange(0, li as int),
            spawn_handler_count(actions@) == spawn_handler_count(seg0),
            internal_feedback_count(actions@, "workspace loaded"@) == internal_feedback_count(
                seg0,
                "workspace loaded"@,
            ),
            internal_feedback_count(actions@, "library loaded"@) == internal_feedback_count(
                seg0,
                "library loaded"@,
            ),
            publish_count(actions@) == publish_count(seg0),
        decreases libs@.len() - li,
    {
        actions.push(Action::SpawnIndex { lib: libs[li] });
        proof {
            assert(spawn_index_libs(seg0) + libs@.subrange(0, li as int) + seq![libs@[li as int]]
                =~= spawn_index_libs(seg0) + libs@.subrange(0, li + 1));
            assert(actions@.subrange(0, seg0.len() as int) =~= seg0);
            assert(spawn_index_libs(actions@) =~= spawn_index_libs(seg0) + libs@.subrange(
                0,
                li + 1,
            ));
        }
        li += 1;
    }
    proof {
        assert(libs@.subrange(0, libs@.len() as int) =~= libs@);
    }
    let ghost a_loop = actions@;
    let emit = state.world.check_workspace_loaded(state.internal_mode);
    if emit {
        actions.push(
            Action::SendNotification(
                RawNotification::InternalFeedback { message: "workspace loaded".to_owned() },
            ),
        );
    }
    let ghost a_fb = actions@;
    if state_changed {
        let snapshot = state.world.snapshot();
        let subscriptions = state.subs.subscriptions();
        actions.push(
            Action::PublishUpdates {
                snapshot,
                subscriptions,
                publish_decorations: state.supports_decorations,
            },
        );
    }
    proof {
        assert forall|k: int|
            0 <= k < actions@.len() implies ((#[trigger] actions@[k] matches Action::SpawnHandler {
            id,
            method,
            params,
            snapshot,
        } ==> (evt matches Event::Msg(RawMessage::Request(req)) && id == req.id && method@
            == req.method@ && params == req.params && snapshot.vfs@
            == pre_files)) && (actions@[k] matches Action::PublishUpdates {
            snapshot,
            subscriptions,
            publish_decorations,
        } ==> (snapshot.vfs@ == state.world.vfs@ && subscriptions@.to_set() == state.subs@
            && publish_decorations == state.supports_decorations))) by {
            if k < a_fb.len() {
                assert(actions@[k] == a_fb[k]);
            }
            if k < a_loop.len() {
                assert(a_fb[k] == a_loop[k]);
            }
            if k < seg0.len() {
                assert(a_loop.subrange(0, seg0.len() as int)[k] == a_loop[k]);
                assert(a_loop[k] == seg0[k]);
            }
        }
    }
    TurnResult { actions, fatal }
}

/// Ghost history of the request/response protocol, as the loop drives it:
/// a request is accepted for dispatch (`loop_turn` requires its id not yet
/// pending), a worker completes it, or the client cancels it. These are the
/// `turn_pending` / `turn_responses` steps of the turns that touch the
/// pending table.
pub enum ReqEvent {
    Accept(u64),
    Complete(u64),
    Cancel(u64),
}

/// The pending set after a history, starting empty.
pub open spec fn pending_fold(es: Seq<ReqEvent>) -> Set<u64>
    decreases es.len(),
{
    if es.len() == 0 {
        Set::empty()
    } else {
        let p = pending_fold(es.drop_last());
        match es.last() {
            ReqEvent::Accept(i) => p.insert(i),
            ReqEvent::Complete(i) => p.remove(i),
            ReqEvent::Cancel(i) => p.remove(i),
        }
    }
}

/// How many responses for `id` a history sends: a completion or a
/// cancellation responds exactly when the id is still pending, as `on_task`
/// and the cancellation handling promise.
pub open spec fn responses_fold(es: Seq<ReqEvent>, id: u64) -> nat
    decreases es.len(),
{
    if es.len() == 0 {
        0
    } else {
        let prior = es.drop_last();
        responses_fold(prior, id) + (match es.last() {
            ReqEvent::Complete(i) => if i == id && pending_fold(prior).contains(id) {
                1nat
            } else {
                0nat
            },
            ReqEvent::Cancel(i) => if i == id && pending_fold(prior).contains(id) {
                1nat
            } else {
                0nat
            },
            _ => 0nat,
        })
    }
}

/// How many times a history accepts `id`.
pub open spec fn accepts_fold(es: Seq<ReqEvent>, id: u64) -> nat
    decreases es.len(),
{
    if es.len() == 0 {
        0
    } else {
        accepts_fold(es.drop_last(), id) + (if es.last() == ReqEvent::Accept(id) {
            1nat
        } else {
            0nat
        })
    }
}

/// The loop never accepts an id that is already pending (`loop_turn`
/// requires it; a duplicate is a fatal programming error).
pub open spec fn trace_wf(es: Seq<ReqEvent>) -> bool {
    forall|k: int|
        0 <= k < es.len() ==> (#[trigger] es[k] matches ReqEvent::Accept(i) ==> !pending_fold(
            es.subrange(0, k),
        ).contains(i))
}

/// Exactly one response per accepted request: over any history, the
/// responses sent for an id, plus one if the id is still pending (its
/// response still owed), equal the times it was accepted. In particular a
/// request answered by cancellation gets no second response when its worker
/// later completes: the completion finds the id gone and is dropped.
pub proof fn lemma_one_response_per_accept(es: Seq<ReqEvent>, id: u64)
    requires
        trace_wf(es),
    ensures
        responses_fold(es, id) + (if pending_fold(es).contains(id) {
            1nat
        } else {
            0nat
        }) == accepts_fold(es, id),
    decreases es.len(),
{
    if es.len() > 0 {
        let prior = es.drop_last();
        assert forall|k: int|
            0 <= k < prior.len() implies (#[trigger] prior[k] matches ReqEvent::Accept(i)
            ==> !pending_fold(prior.subrange(0, k)).contains(i)) by {
            assert(prior[k] == es[k]);
            assert(prior.subrange(0, k) =~= es.subrange(0, k));
        }
        lemma_one_response_per_accept(prior, id);
        match es.last() {
            ReqEvent::Accept(i) => {
                if i == id {
                    assert(es[es.len() - 1] == ReqEvent::Accept(i));
                    assert(es.subrange(0, es.len() - 1) =~= prior);
                    assert(!pending_fold(prior).contains(i));
                }
            },
            _ => {},
        }
    }
}

/// The wire names of the requests the server routes, in the order the
/// handler chain tries them; the contract pins each entry.
pub fn core_method_names() -> (r: Vec<String>)
    ensures
        r@.len() == 22,
        r@[0]@ == "experimental/syntaxTree"@,
        r@[1]@ == "experimental/extendSelection"@,
        r@[2]@ == "experimental/matchingBrace"@,
        r@[3]@ == "experimental/joinLines"@,
        r@[4]@ == "experimental/onEnter"@,
        r@[5]@ == "textDocument/onTypeFormatting"@,
        r@[6]@ == "textDocument/documentSymbol"@,
        r@[7]@ == "workspace/symbol"@,
        r@[8]@ == "textDocument/definition"@,
        r@[9]@ == "experimental/parentModule"@,
        r@[10]@ == "experimental/runnables"@,
        r@[11]@ == "experimental/decorations"@,
        r@[12]@ == "textDocument/completion"@,
        r@[13]@ == "textDocument/codeAction"@,
        r@[14]@ == "textDocument/foldingRange"@,
        r@[15]@ == "textDocument/signatureHelp"@,
        r@[16]@ == "textDocument/hover"@,
        r@[17]@ == "textDocument/prepareRename"@,
        r@[18]@ == "textDocument/rename"@,
        r@[19]@ == "textDocument/references"@,
        r@[20]@ == "textDocument/formatting"@,
        r@[21]@ == "textDocument/documentHighlight"@,
{
    let mut methods: Vec<String> = Vec::new();
    methods.push("experimental/syntaxTree".to_owned());
    methods.push("experimental/extendSelection".to_owned());
    methods.push("experimental/matchingBrace".to_owned());
    methods.push("experimental/joinLines".to_owned());
    methods.push("experimental/onEnter".to_owned());
    methods.push("textDocument/onTypeFormatting".to_owned());
    methods.push("textDocument/documentSymbol".to_owned());
    methods.push("workspace/symbol".to_owned());
    methods.push("textDocument/definition".to_owned());
    methods.push("experimental/parentModule".to_owned());
    methods.push("experimental/runnables".to_owned());
    methods.push("experimental/decorations".to_owned());
    methods.push("textDocument/completion".to_owned());
    methods.push("textDocument/codeAction".to_owned());
    methods.push("textDocument/foldingRange".to_owned());
    methods.push("textDocument/signatureHelp".to_owned());
    methods.push("textDocument/hover".to_owned());
    methods.push("textDocument/prepareRename".to_owned());
    methods.push("textDocument/rename".to_owned());
    methods.push("textDocument/references".to_owned());
    methods.push("textDocument/formatting".to_owned());
    methods.push("textDocument/documentHighlight".to_owned());
    methods
}

/// The single outbound request issued at startup, under the reserved id:
/// register interest in watched-file reports for the server's source-file
/// glob. The contract pins every field; the surroundings only serialize it.
pub struct WatcherRegistration {
    pub id: u64,
    pub method: String,
    pub registration_id: String,
    pub watch_method: String,
    pub glob_pattern: String,
}

pub fn register_watcher_request() -> (r: WatcherRegistration)
    ensures
        r.id == REGISTER_WATCHER_ID,
        r.method@ == "client/registerCapability"@,
        r.registration_id@ == "ra_lsp_watch"@,
        r.watch_method@ == "workspace/didChangeWatchedFiles"@,
        r.glob_pattern@ == "**/*.rs"@,
{
    WatcherRegistration {
        id: REGISTER_WATCHER_ID,
        method: "client/registerCapability".to_owned(),
        registration_id: "ra_lsp_watch".to_owned(),
        watch_method: "workspace/didChangeWatchedFiles".to_owned(),
        glob_pattern: "**/*.rs".to_owned(),
    }
}

/// What a pool worker does with one per-document republication outcome.
pub enum PublishDisposition {
    /// Hand the task to the loop for delivery.
    Send(Task),
    /// Cancellation is normal: the snapshot went stale; nothing is sent
    /// and nothing is logged.
    DropQuietly,
    /// Any other failure is logged, and nothing is sent.
    Log(String),
}

/// Decide what to do with one document's recomputed diagnostics, as the
/// pool worker does: a computed payload becomes a notification for the
/// document, a cancelled computation is dropped silently, any other
/// failure is only logged.
pub fn notification_task_for_outcome(
    uri: Vec<u8>,
    outcome: Result<Vec<Vec<u8>>, HandlerError>,
) -> (r: PublishDisposition)
    ensures
        match outcome {
            Ok(diagnostics) => r == PublishDisposition::Send(
                Task::Notify(RawNotification::PublishDiagnostics { uri, diagnostics }),
            ),
            Err(HandlerError::Canceled) => r is DropQuietly,
            Err(HandlerError::Lsp(e)) => r matches PublishDisposition::Log(m) && m == e.message,
            Err(HandlerError::Other(msg)) => r matches PublishDisposition::Log(m) && m == msg,
        },
{
    match outcome {
        Ok(diagnostics) => PublishDisposition::Send(
            Task::Notify(RawNotification::PublishDiagnostics { uri, diagnostics }),
        ),
        Err(HandlerError::Canceled) => PublishDisposition::DropQuietly,
        Err(HandlerError::Lsp(e)) => PublishDisposition::Log(e.message),
        Err(HandlerError::Other(msg)) => PublishDisposition::Log(msg),
    }
}

/// Decide what to do with one document's recomputed decorations, by the
/// same policy as the diagnostics.
pub fn decoration_task_for_outcome(uri: Vec<u8>, outcome: Result<Vec<u8>, HandlerError>) -> (r:
    PublishDisposition)
    ensures
        match outcome {
            Ok(payload) => r == PublishDisposition::Send(
                Task::Notify(RawNotification::PublishDecorations { uri, payload }),
            ),
            Err(HandlerError::Canceled) => r is DropQuietly,
            Err(HandlerError::Lsp(e)) => r matches PublishDisposition::Log(m) && m == e.message,
            Err(HandlerError::Other(msg)) => r matches PublishDisposition::Log(m) && m == msg,
        },
{
    match outcome {
        Ok(payload) => PublishDisposition::Send(
            Task::Notify(RawNotification::PublishDecorations { uri, payload }),
        ),
        Err(HandlerError::Canceled) => PublishDisposition::DropQuietly,
        Err(HandlerError::Lsp(e)) => PublishDisposition::Log(e.message),
        Err(HandlerError::Other(msg)) => PublishDisposition::Log(msg),
    }
}

} // verus!
