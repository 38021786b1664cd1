use lsp_core::pending::PendingRequests;
use lsp_core::subscriptions::{SubEvent, Subscriptions};
use lsp_core::vfs::FileId;

#[test]
fn subscriptions_track_opens_without_matching_close() {
    let mut subs = Subscriptions::new();
    let events = vec![
        SubEvent::Open(FileId(1)),
        SubEvent::Open(FileId(2)),
        SubEvent::Close(FileId(1)),
        SubEvent::Open(FileId(3)),
        SubEvent::Close(FileId(9)),
        SubEvent::Open(FileId(1)),
        SubEvent::Close(FileId(3)),
    ];
    for e in events {
        subs.apply_event(e);
    }
    // open without a later close: 1 (re-opened) and 2
    assert!(subs.contains(FileId(1)));
    assert!(subs.contains(FileId(2)));
    assert!(!subs.contains(FileId(3)));
    assert!(!subs.contains(FileId(9)));
    let mut listed = subs.subscriptions();
    listed.sort_by_key(|f| f.0);
    assert_eq!(listed, vec![FileId(1), FileId(2)]);
}

#[test]
fn add_sub_is_idempotent() {
    let mut subs = Subscriptions::new();
    subs.add_sub(FileId(5));
    subs.add_sub(FileId(5));
    assert_eq!(subs.subscriptions(), vec![FileId(5)]);
    subs.remove_sub(FileId(5));
    assert!(!subs.contains(FileId(5)));
    subs.remove_sub(FileId(5));
    assert_eq!(subs.subscriptions(), Vec::<FileId>::new());
}

#[test]
fn pending_requests_never_hold_an_id_twice() {
    let mut pending = PendingRequests::new();
    assert!(pending.insert(7));
    assert!(!pending.insert(7));
    assert_eq!(pending.len(), 1);
    assert!(pending.remove(7));
    assert!(!pending.remove(7));
    assert_eq!(pending.len(), 0);
    assert!(pending.insert(7));
    assert_eq!(pending.len(), 1);
}
