use lsp_core::vfs::{FileId, OverlayOp, Vfs, VfsTask};

fn b(s: &str) -> Vec<u8> {
    s.as_bytes().to_vec()
}

#[test]
fn add_overlay_mints_dense_ids_and_replaces() {
    let mut vfs = Vfs::new(b("/ws"));
    let a = vfs.add_file_overlay(&b("/ws/a.rs"), b("one"));
    let c = vfs.add_file_overlay(&b("/ws/b.rs"), b("two"));
    assert_eq!(a, Some(FileId(0)));
    assert_eq!(c, Some(FileId(1)));
    // installing again for the same path replaces, not duplicates
    let again = vfs.add_file_overlay(&b("/ws/a.rs"), b("three"));
    assert_eq!(again, Some(FileId(0)));
    assert_eq!(vfs.len(), 2);
    assert_eq!(vfs.contents(FileId(0)), Some(b("three")));
}

#[test]
fn paths_outside_the_root_are_refused() {
    let mut vfs = Vfs::new(b("/ws"));
    assert_eq!(vfs.add_file_overlay(&b("/elsewhere/a.rs"), b("x")), None);
    assert_eq!(vfs.len(), 0);
}

#[test]
fn change_touches_only_existing_overlays() {
    let mut vfs = Vfs::new(b("/ws"));
    vfs.change_file_overlay(&b("/ws/a.rs"), b("x"));
    assert_eq!(vfs.len(), 0);
    vfs.add_file_overlay(&b("/ws/a.rs"), b("one"));
    vfs.change_file_overlay(&b("/ws/a.rs"), b("two"));
    assert_eq!(vfs.contents(FileId(0)), Some(b("two")));
}

#[test]
fn remove_overlay_reveals_disk_content() {
    let mut vfs = Vfs::new(b("/ws"));
    vfs.handle_task(VfsTask::DiskChange { path: b("/ws/a.rs"), text: b("on disk") });
    assert_eq!(vfs.contents(FileId(0)), Some(b("on disk")));
    vfs.add_file_overlay(&b("/ws/a.rs"), b("in editor"));
    assert_eq!(vfs.contents(FileId(0)), Some(b("in editor")));
    let removed = vfs.remove_file_overlay(&b("/ws/a.rs"));
    assert_eq!(removed, Some(FileId(0)));
    assert_eq!(vfs.contents(FileId(0)), Some(b("on disk")));
    // a second removal is a no-op
    assert_eq!(vfs.remove_file_overlay(&b("/ws/a.rs")), None);
}

fn ops() -> Vec<OverlayOp> {
    vec![
        OverlayOp::Add { path: b("/ws/a.rs"), text: b("one") },
        OverlayOp::Add { path: b("/ws/b.rs"), text: b("two") },
        OverlayOp::Change { path: b("/ws/a.rs"), text: b("three") },
        OverlayOp::Remove { path: b("/ws/b.rs") },
        OverlayOp::Add { path: b("/outside"), text: b("ignored") },
    ]
}

#[test]
fn replaying_the_same_operations_reports_the_same_contents() {
    let v1 = Vfs::replay(b("/ws"), &ops());
    let v2 = Vfs::replay(b("/ws"), &ops());
    assert_eq!(v1.len(), v2.len());
    for i in 0..v1.len() as u32 {
        assert_eq!(v1.contents(FileId(i)), v2.contents(FileId(i)));
    }
    // and the replayed state matches applying the operations one by one
    let mut v3 = Vfs::new(b("/ws"));
    for op in ops() {
        v3.apply_op(&op);
    }
    assert_eq!(v1.len(), v3.len());
    for i in 0..v1.len() as u32 {
        assert_eq!(v1.contents(FileId(i)), v3.contents(FileId(i)));
    }
    assert_eq!(v1.contents(FileId(0)), Some(b("three")));
    assert_eq!(v1.contents(FileId(1)), None);
}

#[test]
fn disk_removal_keeps_the_overlay() {
    let mut vfs = Vfs::new(b("/ws"));
    vfs.handle_task(VfsTask::DiskChange { path: b("/ws/a.rs"), text: b("on disk") });
    vfs.add_file_overlay(&b("/ws/a.rs"), b("open"));
    vfs.handle_task(VfsTask::DiskRemove { path: b("/ws/a.rs") });
    assert_eq!(vfs.contents(FileId(0)), Some(b("open")));
}

#[test]
fn snapshot_is_untouched_by_later_writes() {
    let mut vfs = Vfs::new(b("/ws"));
    vfs.add_file_overlay(&b("/ws/a.rs"), b("before"));
    let snap = vfs.clone_state();
    vfs.change_file_overlay(&b("/ws/a.rs"), b("after"));
    assert_eq!(snap.contents(FileId(0)), Some(b("before")));
    assert_eq!(vfs.contents(FileId(0)), Some(b("after")));
}
