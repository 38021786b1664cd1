//! The virtual filesystem: authoritative file contents, with editor
//! overlays shadowing on-disk content.
//!
//! Files are identified by dense integer `FileId`s handed out in the order
//! paths first become known and stable for the life of the state. A file's
//! reported contents are its overlay if the editor has one installed, else
//! what the watcher last reported on disk. Only paths under the workspace
//! root are accepted.

use vstd::prelude::*;

verus! {

/// Dense integer identity of a file, stable for the process lifetime.
#[derive(Clone, Copy, PartialEq, Eq, Structural, Debug, Hash)]
pub struct FileId(pub u32);

/// Most files one state will track; keeps identifiers within `u32`.
pub const MAX_FILES: usize = 0x7fff_ffff;

/// Ghost image of one tracked file.
pub ghost struct FileEntryView {
    pub path: Seq<u8>,
    pub disk: Option<Seq<u8>>,
    pub overlay: Option<Seq<u8>>,
}

/// Contents the VFS reports for an entry: the overlay shadows the disk.
pub open spec fn entry_contents(e: FileEntryView) -> Option<Seq<u8>> {
    if e.overlay is Some {
        e.overlay
    } else {
        e.disk
    }
}

/// `prefix` begins `path`.
pub open spec fn is_prefix(prefix: Seq<u8>, path: Seq<u8>) -> bool {
    prefix.len() <= path.len() && path.subrange(0, prefix.len() as int) == prefix
}

/// One editor-driven overlay operation, as the notification handler issues
/// them.
pub enum OverlayOp {
    Add { path: Vec<u8>, text: Vec<u8> },
    Change { path: Vec<u8>, text: Vec<u8> },
    Remove { path: Vec<u8> },
}

/// One watcher task: what changed on disk.
pub enum VfsTask {
    DiskChange { path: Vec<u8>, text: Vec<u8> },
    DiskRemove { path: Vec<u8> },
}

struct FileEntry {
    path: Vec<u8>,
    disk: Option<Vec<u8>>,
    overlay: Option<Vec<u8>>,
}

/// The virtual filesystem state.
pub struct Vfs {
    root: Vec<u8>,
    files: Vec<FileEntry>,
}

/// Index of the entry for `path`, if tracked.
pub open spec fn spec_find(files: Seq<FileEntryView>, path: Seq<u8>) -> Option<int> {
    if exists|i: int| 0 <= i < files.len() && files[i].path == path {
        Some(choose|i: int| 0 <= i < files.len() && files[i].path == path)
    } else {
        None
    }
}

/// Installing an overlay: a path under the root gets its overlay set,
/// minting a new entry for a path not seen before; other paths are
/// refused and nothing changes.
pub open spec fn apply_add(root: Seq<u8>, files: Seq<FileEntryView>, path: Seq<u8>, text: Seq<u8>) -> Seq<
    FileEntryView,
> {
    if !is_prefix(root, path) {
        files
    } else {
        match spec_find(files, path) {
            Some(i) => files.update(
                i,
                FileEntryView { path: path, disk: files[i].disk, overlay: Some(text) },
            ),
            None => files.push(FileEntryView { path: path, disk: None, overlay: Some(text) }),
        }
    }
}

/// The file identity an accepted `apply_add` reports: the existing entry's
/// index, or the next free one.
pub open spec fn add_file_id(files: Seq<FileEntryView>, path: Seq<u8>) -> FileId {
    match spec_find(files, path) {
        Some(i) => FileId(i as u32),
        None => FileId(files.len() as u32),
    }
}

/// Replacing an overlay's text: only an entry that has one changes.
pub open spec fn apply_change(files: Seq<FileEntryView>, path: Seq<u8>, text: Seq<u8>) -> Seq<
    FileEntryView,
> {
    match spec_find(files, path) {
        Some(i) => {
            if files[i].overlay is Some {
                files.update(
                    i,
                    FileEntryView { path: path, disk: files[i].disk, overlay: Some(text) },
                )
            } else {
                files
            }
        },
        None => files,
    }
}

/// Removing an overlay: the disk content (if any) shows through again.
pub open spec fn apply_remove(files: Seq<FileEntryView>, path: Seq<u8>) -> Seq<FileEntryView> {
    match spec_find(files, path) {
        Some(i) => {
            if files[i].overlay is Some {
                files.update(i, FileEntryView { path: path, disk: files[i].disk, overlay: None })
            } else {
                files
            }
        },
        None => files,
    }
}

/// Effect of one overlay operation on the tracked files. Mirrors, file for
/// file, what the exec operations promise.
pub open spec fn apply_overlay_op(root: Seq<u8>, files: Seq<FileEntryView>, op: OverlayOp) -> Seq<
    FileEntryView,
> {
    match op {
        OverlayOp::Add { path, text } => apply_add(root, files, path@, text@),
        OverlayOp::Change { path, text } => apply_change(files, path@, text@),
        OverlayOp::Remove { path } => apply_remove(files, path@),
    }
}

/// Effect of one watcher task on the tracked files: a disk change updates
/// or mints the entry (overlays untouched), a disk removal clears the disk
/// content.
pub open spec fn apply_vfs_task(root: Seq<u8>, files: Seq<FileEntryView>, task: VfsTask) -> Seq<
    FileEntryView,
> {
    match task {
        VfsTask::DiskChange { path, text } => {
            if !is_prefix(root, path@) {
                files
            } else {
                match spec_find(files, path@) {
                    Some(i) => files.update(
                        i,
                        FileEntryView { path: path@, disk: Some(text@), overlay: files[i].overlay },
                    ),
                    None => files.push(
                        FileEntryView { path: path@, disk: Some(text@), overlay: None },
                    ),
                }
            }
        },
        VfsTask::DiskRemove { path } => {
            match spec_find(files, path@) {
                Some(i) => files.update(
                    i,
                    FileEntryView { path: path@, disk: None, overlay: files[i].overlay },
                ),
                None => files,
            }
        },
    }
}

/// The tracked files after replaying `ops` on a fresh state: the state is a
/// pure function of the operation sequence.
pub open spec fn replay_overlay_ops(root: Seq<u8>, ops: Seq<OverlayOp>) -> Seq<FileEntryView>
    decreases ops.len(),
{
    if ops.len() == 0 {
        Seq::empty()
    } else {
        apply_overlay_op(root, replay_overlay_ops(root, ops.drop_last()), ops.last())
    }
}

impl Vfs {
    /// The tracked files; index `i` is the file with identity `FileId(i)`.
    pub closed spec fn view(&self) -> Seq<FileEntryView> {
        Seq::new(
            self.files@.len(),
            |i: int|
                FileEntryView {
                    path: self.files@[i].path@,
                    disk: match self.files@[i].disk {
                        Some(t) => Some(t@),
                        None => None,
                    },
                    overlay: match self.files@[i].overlay {
                        Some(t) => Some(t@),
                        None => None,
                    },
                },
        )
    }

    /// The workspace root under which paths are accepted.
    pub closed spec fn root_view(&self) -> Seq<u8> {
        self.root@
    }

    /// Paths are distinct (one entry per file) and the table fits the
    /// identifier space.
    pub closed spec fn wf(&self) -> bool {
        &&& self.files@.len() <= MAX_FILES
        &&& forall|i: int, j: int|
            0 <= i < j < self.files@.len() ==> self.files@[i].path@ != self.files@[j].path@
    }

    pub fn new(root: Vec<u8>) -> (r: Vfs)
        ensures
            r.wf(),
            r.root_view() == root@,
            r@ == Seq::<FileEntryView>::empty(),
    {
        let r = Vfs { root, files: Vec::new() };
        proof {
            assert(r@ =~= Seq::<FileEntryView>::empty());
        }
        r
    }

    fn bytes_eq(a: &Vec<u8>, b: &Vec<u8>) -> (r: bool)
        ensures
            r == (a@ == b@),
    {
        if a.len() != b.len() {
            proof {
                assert(a@.len() != b@.len());
            }
            return false;
        }
        let mut i: usize = 0;
        while i < a.len()
            invariant
                0 <= i <= a@.len(),
                a@.len() == b@.len(),
                forall|k: int| 0 <= k < i ==> a@[k] == b@[k],
            decreases a@.len() - i,
        {
            if a[i] != b[i] {
                return false;
            }
            i += 1;
        }
        proof {
            assert(a@ =~= b@);
        }
        true
    }

    fn starts_with(prefix: &Vec<u8>, path: &Vec<u8>) -> (r: bool)
        ensures
            r == is_prefix(prefix@, path@),
    {
        if prefix.len() > path.len() {
            return false;
        }
        let mut i: usize = 0;
        while i < prefix.len()
            invariant
                0 <= i <= prefix@.len() <= path@.len(),
                forall|k: int| 0 <= k < i ==> path@[k] == prefix@[k],
            decreases prefix@.len() - i,
        {
            if path[i] != prefix[i] {
                proof {
                    assert(path@.subrange(0, prefix@.len() as int)[i as int] != prefix@[i as int]);
                }
                return false;
            }
            i += 1;
        }
        proof {
            assert(path@.subrange(0, prefix@.len() as int) =~= prefix@);
        }
        true
    }

    fn find(&self, path: &Vec<u8>) -> (r: Option<usize>)
        requires
            self.wf(),
        ensures
            match r {
                Some(i) => spec_find(self@, path@) == Some(i as int) && i < self@.len()
                    && self@[i as int].path == path@,
                None => spec_find(self@, path@) is None,
            },
    {
        let mut i: usize = 0;
        while i < self.files.len()
            invariant
                self.wf(),
                0 <= i <= self@.len(),
                forall|k: int| 0 <= k < i ==> self@[k].path != path@,
            decreases self@.len() - i,
        {
            if Self::bytes_eq(&self.files[i].path, path) {
                proof {
                    let w = choose|w: int| 0 <= w < self@.len() && self@[w].path == path@;
                    assert(self@[i as int].path == path@);
                    if w != i {
                        assert(self@[w].path == self@[i as int].path);
                        assert(false);
                    }
                }
                return Some(i);
            }
            i += 1;
        }
        None
    }

    /// Install an editor overlay for `path`. Accepted exactly when the path
    /// lies under the root; then the overlay shadows any disk content and
    /// the file's identity is returned, minting a fresh dense one for a
    /// path not seen before.
    pub fn add_file_overlay(&mut self, path: &Vec<u8>, text: Vec<u8>) -> (r: Option<FileId>)
        requires
            old(self).wf(),
            old(self)@.len() < MAX_FILES,
        ensures
            final(self).wf(),
            final(self).root_view() == old(self).root_view(),
            final(self)@ == apply_overlay_op(
                old(self).root_view(),
                old(self)@,
                OverlayOp::Add { path: *path, text: text },
            ),
            match r {
                Some(f) => {
                    &&& is_prefix(old(self).root_view(), path@)
                    &&& f == add_file_id(old(self)@, path@)
                    &&& f.0 < final(self)@.len()
                    &&& final(self)@[f.0 as int].path == path@
                    &&& final(self)@[f.0 as int].overlay == Some(text@)
                },
                None => !is_prefix(old(self).root_view(), path@) && final(self)@ == old(self)@,
            },
    {
        if !Self::starts_with(&self.root, path) {
            return None;
        }
        match self.find(path) {
            Some(i) => {
                let entry = &mut self.files[i];
                entry.overlay = Some(text);
                proof {
                    assert(forall|k: int|
                        0 <= k < self.files@.len() ==> self.files@[k].path@ == old(
                            self,
                        ).files@[k].path@);
                    assert forall|a: int, b: int|
                        0 <= a < b < self.files@.len() implies self.files@[a].path@
                        != self.files@[b].path@ by {
                        assert(self.files@[a].path@ == old(self).files@[a].path@);
                        assert(self.files@[b].path@ == old(self).files@[b].path@);
                        assert(old(self).wf());
                    }
                    assert(self@ =~= apply_overlay_op(
                        old(self).root_view(),
                        old(self)@,
                        OverlayOp::Add { path: *path, text: text },
                    ));
                }
                Some(FileId(i as u32))
            },
            None => {
                let i = self.files.len();
                self.files.push(FileEntry { path: path.clone(), disk: None, overlay: Some(text) });
                proof {
                    assert(forall|k: int|
                        0 <= k < old(self)@.len() ==> old(self)@[k].path != path@);
                    assert(forall|k: int|
                        0 <= k < old(self).files@.len() ==> self.files@[k].path@ == old(
                            self,
                        ).files@[k].path@ && old(self).files@[k].path@ == old(self)@[k].path);
                    assert(self.files@[i as int].path@ == path@);
                    assert(self@[i as int].path == path@);
                    assert forall|a: int, b: int|
                        0 <= a < b < self.files@.len() implies self.files@[a].path@
                        != self.files@[b].path@ by {
                        assert(self.files@[a].path@ == old(self)@[a].path);
                        if b < old(self).files@.len() {
                            assert(self.files@[b].path@ == old(self)@[b].path);
                            assert(old(self).wf());
                        } else {
                            assert(old(self)@[a].path != path@);
                        }
                    }

                    assert(self@ =~= apply_overlay_op(
                        old(self).root_view(),
                        old(self)@,
                        OverlayOp::Add { path: *path, text: text },
                    ));
                }
                Some(FileId(i as u32))
            },
        }
    }

    /// Replace the overlay text for `path`. A path without an installed
    /// overlay (or not tracked at all) is left untouched.
    pub fn change_file_overlay(&mut self, path: &Vec<u8>, text: Vec<u8>)
        requires
            old(self).wf(),
        ensures
            final(self).wf(),
            final(self).root_view() == old(self).root_view(),
            final(self)@ == apply_overlay_op(
                old(self).root_view(),
                old(self)@,
                OverlayOp::Change { path: *path, text: text },
            ),
    {
        match self.find(path) {
            Some(i) => {
                if self.files[i].overlay.is_some() {
                    let entry = &mut self.files[i];
                    entry.overlay = Some(text);
                    proof {
                        assert(forall|k: int|
                            0 <= k < self.files@.len() ==> self.files@[k].path@ == old(
                                self,
                            ).files@[k].path@);
                        assert(self@ =~= apply_overlay_op(
                            old(self).root_view(),
                            old(self)@,
                            OverlayOp::Change { path: *path, text: text },
                        ));
                    }
                }
            },
            None => {},
        }
    }

    /// Remove the overlay for `path`, reporting the file whose overlay was
    /// removed; the disk content (if any) shows through again.
    pub fn remove_file_overlay(&mut self, path: &Vec<u8>) -> (r: Option<FileId>)
        requires
            old(self).wf(),
        ensures
            final(self).wf(),
            final(self).root_view() == old(self).root_view(),
            final(self)@ == apply_overlay_op(
                old(self).root_view(),
                old(self)@,
                OverlayOp::Remove { path: *path },
            ),
            match r {
                Some(f) => f.0 < old(self)@.len() && old(self)@[f.0 as int].path == path@ && old(
                    self,
                )@[f.0 as int].overlay is Some && final(self)@[f.0 as int].overlay is None,
                None => final(self)@ == old(self)@,
            },
    {
        match self.find(path) {
            Some(i) => {
                if self.files[i].overlay.is_some() {
                    let entry = &mut self.files[i];
                    entry.overlay = None;
                    proof {
                        assert(forall|k: int|
                            0 <= k < self.files@.len() ==> self.files@[k].path@ == old(
                                self,
                            ).files@[k].path@);
                        assert(self@ =~= apply_overlay_op(
                            old(self).root_view(),
                            old(self)@,
                            OverlayOp::Remove { path: *path },
                        ));
                    }
                    Some(FileId(i as u32))
                } else {
                    None
                }
            },
            None => None,
        }
    }

    /// Apply one overlay operation, as `replay` does.
    pub fn apply_op(&mut self, op: &OverlayOp)
        requires
            old(self).wf(),
            old(self)@.len() < MAX_FILES,
        ensures
            final(self).wf(),
            final(self).root_view() == old(self).root_view(),
            final(self)@ == apply_overlay_op(old(self).root_view(), old(self)@, *op),
    {
        match op {
            OverlayOp::Add { path, text } => {
                self.add_file_overlay(path, text.clone());
            },
            OverlayOp::Change { path, text } => {
                self.change_file_overlay(path, text.clone());
            },
            OverlayOp::Remove { path } => {
                self.remove_file_overlay(path);
            },
        }
    }

    /// Apply one watcher task: the disk content for `path` changed or the
    /// file disappeared from disk. Overlays are not touched; a disk change
    /// for an unknown path under the root mints its entry.
    pub fn handle_task(&mut self, task: VfsTask)
        requires
            old(self).wf(),
            old(self)@.len() < MAX_FILES,
        ensures
            final(self).wf(),
            final(self).root_view() == old(self).root_view(),
            final(self)@ == apply_vfs_task(old(self).root_view(), old(self)@, task),
    {
        match task {
            VfsTask::DiskChange { path, text } => {
                if !Self::starts_with(&self.root, &path) {
                    return ;
                }
                match self.find(&path) {
                    Some(i) => {
                        let entry = &mut self.files[i];
                        entry.disk = Some(text);
                        proof {
                            let pv = text@;
                            assert(forall|k: int|
                                0 <= k < self.files@.len() ==> self.files@[k].path@ == old(
                                    self,
                                ).files@[k].path@);
                            assert forall|a: int, b: int|
                                0 <= a < b < self.files@.len() implies self.files@[a].path@
                                != self.files@[b].path@ by {
                                assert(self.files@[a].path@ == old(self).files@[a].path@);
                                assert(self.files@[b].path@ == old(self).files@[b].path@);
                                assert(old(self).wf());
                            }
                            let iv = spec_find(old(self)@, self@[i as int].path).unwrap();
                            assert(self@ =~= old(self)@.update(
                                iv,
                                FileEntryView {
                                    path: self@[i as int].path,
                                    disk: Some(pv),
                                    overlay: old(self)@[iv].overlay,
                                },
                            ));
                        }
                    },
                    None => {
                        let ghost pv = path@;
                        let ghost tv = text@;
                        self.files.push(FileEntry { path, disk: Some(text), overlay: None });
                        proof {
                            assert(forall|k: int|
                                0 <= k < old(self)@.len() ==> old(self)@[k].path != pv);
                            assert(forall|k: int|
                                0 <= k < old(self).files@.len() ==> self.files@[k].path@ == old(
                                    self,
                                ).files@[k].path@ && old(self).files@[k].path@ == old(
                                    self,
                                )@[k].path);
                            assert(self.files@[self.files@.len() - 1].path@ == pv);
                            assert(self@[self@.len() - 1].path == pv);
                            assert forall|a: int, b: int|
                                0 <= a < b < self.files@.len() implies self.files@[a].path@
                                != self.files@[b].path@ by {
                                assert(self.files@[a].path@ == old(self)@[a].path);
                                if b < old(self).files@.len() {
                                    assert(self.files@[b].path@ == old(self)@[b].path);
                                    assert(old(self).wf());
                                } else {
                                    assert(old(self)@[a].path != pv);
                                }
                            }

                            assert(self@ =~= old(self)@.push(
                                FileEntryView { path: pv, disk: Some(tv), overlay: None },
                            ));
                        }
                    },
                }
            },
            VfsTask::DiskRemove { path } => {
                match self.find(&path) {
                    Some(i) => {
                        let entry = &mut self.files[i];
                        entry.disk = None;
                        proof {
                            assert(forall|k: int|
                                0 <= k < self.files@.len() ==> self.files@[k].path@ == old(
                                    self,
                                ).files@[k].path@);
                            assert forall|a: int, b: int|
                                0 <= a < b < self.files@.len() implies self.files@[a].path@
                                != self.files@[b].path@ by {
                                assert(self.files@[a].path@ == old(self).files@[a].path@);
                                assert(self.files@[b].path@ == old(self).files@[b].path@);
                                assert(old(self).wf());
                            }
                            let iv = spec_find(old(self)@, self@[i as int].path).unwrap();
                            assert(self@ =~= old(self)@.update(
                                iv,
                                FileEntryView {
                                    path: self@[i as int].path,
                                    disk: None,
                                    overlay: old(self)@[iv].overlay,
                                },
                            ));
                        }
                    },
                    None => {},
                }
            },
        }
    }

    /// The contents the VFS reports for a file: overlay first, else disk.
    pub fn contents(&self, file_id: FileId) -> (r: Option<Vec<u8>>)
        requires
            (file_id.0 as int) < self@.len(),
        ensures
            match r {
                Some(t) => entry_contents(self@[file_id.0 as int]) == Some(t@),
                None => entry_contents(self@[file_id.0 as int]) is None,
            },
    {
        let entry = &self.files[file_id.0 as usize];
        match &entry.overlay {
            Some(t) => Some(t.clone()),
            None => match &entry.disk {
                Some(t) => Some(t.clone()),
                None => None,
            },
        }
    }

    /// The identity of the file tracked under `path`, if any.
    pub fn find_file(&self, path: &Vec<u8>) -> (r: Option<FileId>)
        requires
            self.wf(),
        ensures
            match r {
                Some(f) => spec_find(self@, path@) == Some(f.0 as int) && f.0 < self@.len()
                    && self@[f.0 as int].path == path@,
                None => spec_find(self@, path@) is None,
            },
    {
        match self.find(path) {
            Some(i) => Some(FileId(i as u32)),
            None => None,
        }
    }

    /// Deep copy of the state, for snapshots: the copy reports the same
    /// files and contents and is untouched by later changes to `self`.
    pub fn clone_state(&self) -> (r: Vfs)
        requires
            self.wf(),
        ensures
            r.wf(),
            r@ == self@,
            r.root_view() == self.root_view(),
    {
        let mut files: Vec<FileEntry> = Vec::new();
        let mut i: usize = 0;
        while i < self.files.len()
            invariant
                0 <= i <= self.files@.len(),
                files@.len() == i,
                forall|k: int|
                    0 <= k < i ==> files@[k].path@ == self.files@[k].path@ && (match (
                        files@[k].disk,
                        self.files@[k].disk,
                    ) {
                        (Some(a), Some(b)) => a@ == b@,
                        (None, None) => true,
                        _ => false,
                    }) && (match (files@[k].overlay, self.files@[k].overlay) {
                        (Some(a), Some(b)) => a@ == b@,
                        (None, None) => true,
                        _ => false,
                    }),
            decreases self.files@.len() - i,
        {
            let src = &self.files[i];
            let disk = match &src.disk {
                Some(t) => Some(t.clone()),
                None => None,
            };
            let overlay = match &src.overlay {
                Some(t) => Some(t.clone()),
                None => None,
            };
            files.push(FileEntry { path: src.path.clone(), disk, overlay });
            i += 1;
        }
        let r = Vfs { root: self.root.clone(), files };
        proof {
            assert(r@ =~= self@);
        }
        r
    }

    /// The path a file identity is tracked under, or `None` for an
    /// identity not in use.
    pub fn path_of(&self, file_id: FileId) -> (r: Option<Vec<u8>>)
        ensures
            match r {
                Some(p) => file_id.0 < self@.len() && p@ == self@[file_id.0 as int].path,
                None => file_id.0 >= self@.len(),
            },
    {
        if (file_id.0 as usize) < self.files.len() {
            Some(self.files[file_id.0 as usize].path.clone())
        } else {
            None
        }
    }

    /// Number of tracked files.
    pub fn len(&self) -> (r: usize)
        ensures
            r == self@.len(),
    {
        self.files.len()
    }

    /// Replay a sequence of overlay operations on a fresh state: the result
    /// depends on the operations alone, so any two states that processed
    /// the same operations report the same contents for every file.
    pub fn replay(root: Vec<u8>, ops: &Vec<OverlayOp>) -> (r: Vfs)
        requires
            ops@.len() <= MAX_FILES,
        ensures
            r.wf(),
            r.root_view() == root@,
            r@ == replay_overlay_ops(root@, ops@),
    {
        let ghost rootv = root@;
        let mut vfs = Vfs::new(root);
        let mut i: usize = 0;
        proof {
            assert(vfs@ =~= replay_overlay_ops(rootv, ops@.subrange(0, 0)));
        }
        while i < ops.len()
            invariant
                vfs.wf(),
                vfs.root_view() == rootv,
                0 <= i <= ops@.len() <= MAX_FILES,
                vfs@.len() <= i,
                vfs@ == replay_overlay_ops(rootv, ops@.subrange(0, i as int)),
            decreases ops@.len() - i,
        {
            proof {
                lemma_apply_op_len(vfs.root_view(), vfs@, ops@[i as int]);
            }
            vfs.apply_op(&ops[i]);
            proof {
                assert(ops@.subrange(0, i + 1).drop_last() =~= ops@.subrange(0, i as int));
                assert(ops@.subrange(0, i + 1).last() == ops@[i as int]);
            }
            i += 1;
        }
        proof {
            assert(ops@.subrange(0, ops@.len() as int) =~= ops@);
        }
        vfs
    }
}

/// One overlay operation grows the file table by at most one entry.
pub proof fn lemma_apply_op_len(root: Seq<u8>, files: Seq<FileEntryView>, op: OverlayOp)
    ensures
        apply_overlay_op(root, files, op).len() <= files.len() + 1,
{
}

/// Replaying a given operation sequence is deterministic: two states built
/// by the same replay report the same contents for every file.
pub proof fn lemma_replay_deterministic(
    root: Seq<u8>,
    ops: Seq<OverlayOp>,
    files1: Seq<FileEntryView>,
    files2: Seq<FileEntryView>,
)
    requires
        files1 == replay_overlay_ops(root, ops),
        files2 == replay_overlay_ops(root, ops),
    ensures
        files1 == files2,
        forall|i: int|
            0 <= i < files1.len() ==> entry_contents(files1[i]) == entry_contents(files2[i]),
{
}

} // verus!
