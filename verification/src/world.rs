//! The world state: the single writable owner of the virtual filesystem,
//! the set of workspace roots still being scanned, and the queue of
//! libraries ready for indexing.
//!
//! Snapshots are immutable copies handed to pool workers; mutations through
//! the owning state never disturb a snapshot already taken. The counter
//! `roots_to_scan` starts at the number of workspace roots and decrements
//! as each indexed library is merged; the turn after it reaches zero emits
//! the "workspace loaded" feedback exactly once when internal mode is on
//! (`lemma_workspace_loaded_once`).

use vstd::prelude::*;

use crate::line_index::{LineIndex, MAX_TEXT_LEN};
use crate::uri::{path_to_uri, spec_path_to_uri, spec_uri_to_path, uri_to_path};
use crate::vfs::{entry_contents, spec_find, FileEntryView, FileId, Vfs};

verus! {

/// An indexed library produced by a background worker, ready to merge.
#[derive(Clone, Copy, PartialEq, Eq, Structural, Debug)]
pub struct LibraryData {
    pub root_id: u32,
}

/// Immutable view of the world at a point in time; safe to read from many
/// threads, never written through.
pub struct WorldSnapshot {
    pub vfs: Vfs,
}

/// The text a snapshot reads for a file: the reported contents, or empty
/// for a file with neither overlay nor disk content.
pub open spec fn snapshot_text(files: Seq<FileEntryView>, file_id: FileId) -> Seq<u8> {
    match entry_contents(files[file_id.0 as int]) {
        Some(t) => t,
        None => Seq::empty(),
    }
}

impl WorldSnapshot {
    /// The file a protocol uri names: resolve it to a path and look that
    /// path up. Fails exactly when the uri is no local path or the path is
    /// not tracked.
    pub fn uri_to_file_id(&self, uri: &Vec<u8>) -> (r: Result<FileId, String>)
        requires
            self.vfs.wf(),
        ensures
            match r {
                Ok(f) => spec_uri_to_path(uri@) matches Some(p) && spec_find(self.vfs@, p) == Some(
                    f.0 as int,
                ) && f.0 < self.vfs@.len(),
                Err(_) => spec_uri_to_path(uri@) is None || (spec_uri_to_path(uri@) matches Some(p)
                    && spec_find(self.vfs@, p) is None),
            },
    {
        match uri_to_path(uri) {
            None => Err("invalid uri".to_owned()),
            Some(path) => match self.vfs.find_file(&path) {
                Some(f) => Ok(f),
                None => Err("unknown file".to_owned()),
            },
        }
    }

    /// The protocol uri of a tracked file. Fails exactly when the identity
    /// is not in use.
    pub fn file_id_to_uri(&self, file_id: FileId) -> (r: Result<Vec<u8>, String>)
        ensures
            match r {
                Ok(u) => file_id.0 < self.vfs@.len() && u@ == spec_path_to_uri(
                    self.vfs@[file_id.0 as int].path,
                ),
                Err(_) => file_id.0 >= self.vfs@.len(),
            },
    {
        match self.vfs.path_of(file_id) {
            Some(path) => Ok(path_to_uri(&path)),
            None => Err("unknown file".to_owned()),
        }
    }

    /// The line index over a file's current text; `None` when the identity
    /// is not in use or the text is beyond the translator's size bound.
    pub fn file_line_index(&self, file_id: FileId) -> (r: Option<LineIndex>)
        ensures
            match r {
                Some(ix) => file_id.0 < self.vfs@.len() && ix@ == snapshot_text(self.vfs@, file_id),
                None => file_id.0 >= self.vfs@.len() || snapshot_text(self.vfs@, file_id).len()
                    > MAX_TEXT_LEN,
            },
    {
        if (file_id.0 as usize) >= self.vfs.len() {
            return None;
        }
        let text = match self.vfs.contents(file_id) {
            Some(t) => t,
            None => Vec::new(),
        };
        if text.len() > MAX_TEXT_LEN {
            return None;
        }
        Some(LineIndex::new(text))
    }
}

/// The writable world. `ws_loaded_sent` is the one-shot latch of the
/// "workspace loaded" feedback; `unindexed` queues libraries for the pool.
pub struct WorldState {
    pub vfs: Vfs,
    pub roots_to_scan: u32,
    pub ws_loaded_sent: bool,
    pub unindexed: Vec<LibraryData>,
}

impl WorldState {
    pub open spec fn wf(&self) -> bool {
        self.vfs.wf()
    }

    /// Whether the one-shot "workspace loaded" feedback has been emitted.
    pub open spec fn loaded_sent(&self) -> bool {
        self.ws_loaded_sent
    }

    /// Libraries waiting to be handed to the indexing pool.
    pub open spec fn unindexed_view(&self) -> Seq<LibraryData> {
        self.unindexed@
    }

    pub open spec fn vfs_view(&self) -> Seq<FileEntryView> {
        self.vfs@
    }

    /// Fresh world over `root`, with `n_roots` workspace roots still to be
    /// scanned and indexed.
    pub fn new(root: Vec<u8>, n_roots: u32) -> (r: WorldState)
        ensures
            r.wf(),
            r.roots_to_scan == n_roots,
            !r.loaded_sent(),
            r.unindexed_view() == Seq::<LibraryData>::empty(),
            r.vfs_view() == Seq::<FileEntryView>::empty(),
    {
        WorldState {
            vfs: Vfs::new(root),
            roots_to_scan: n_roots,
            ws_loaded_sent: false,
            unindexed: Vec::new(),
        }
    }

    /// Record that the scanner finished loading a library root; it will be
    /// returned by the next `process_changes`.
    pub fn note_library_ready(&mut self, lib: LibraryData)
        ensures
            final(self).unindexed_view() == old(self).unindexed_view().push(lib),
            final(self).vfs == old(self).vfs,
            final(self).roots_to_scan == old(self).roots_to_scan,
            final(self).loaded_sent() == old(self).loaded_sent(),
            final(self).wf() == old(self).wf(),
    {
        self.unindexed.push(lib);
    }

    /// Drain the libraries that are ready to be indexed; each is handed out
    /// exactly once.
    pub fn process_changes(&mut self) -> (r: Vec<LibraryData>)
        ensures
            r@ == old(self).unindexed_view(),
            final(self).unindexed_view() == Seq::<LibraryData>::empty(),
            final(self).vfs == old(self).vfs,
            final(self).roots_to_scan == old(self).roots_to_scan,
            final(self).loaded_sent() == old(self).loaded_sent(),
            final(self).wf() == old(self).wf(),
    {
        let mut out: Vec<LibraryData> = Vec::new();
        std::mem::swap(&mut out, &mut self.unindexed);
        out
    }

    /// Merge one indexed library: one more root has finished scanning.
    pub fn add_lib(&mut self, lib: LibraryData)
        requires
            old(self).roots_to_scan > 0,
        ensures
            final(self).roots_to_scan == old(self).roots_to_scan - 1,
            final(self).unindexed_view() == old(self).unindexed_view(),
            final(self).vfs == old(self).vfs,
            final(self).loaded_sent() == old(self).loaded_sent(),
            final(self).wf() == old(self).wf(),
    {
        // the indexed symbols go into the analysis engine, which lives
        // outside this core; here the merge finishes one root's scan
        let _ = lib;
        self.roots_to_scan = self.roots_to_scan - 1;
    }

    /// Per-turn check of the one-shot "workspace loaded" feedback: reports
    /// whether to emit it now, and latches so it is never emitted twice.
    /// This is the emission step of `feedback_step` in the turn model.
    pub fn check_workspace_loaded(&mut self, internal_mode: bool) -> (emit: bool)
        ensures
            emit == (old(self).roots_to_scan == 0 && !old(self).loaded_sent() && internal_mode),
            final(self).loaded_sent() == (old(self).loaded_sent() || emit),
            final(self).roots_to_scan == old(self).roots_to_scan,
            final(self).unindexed_view() == old(self).unindexed_view(),
            final(self).vfs == old(self).vfs,
            final(self).wf() == old(self).wf(),
    {
        let emit = self.roots_to_scan == 0 && !self.ws_loaded_sent && internal_mode;
        if emit {
            self.ws_loaded_sent = true;
        }
        emit
    }

    /// Immutable copy of the current state for a pool worker; later
    /// mutations of `self` leave it untouched.
    pub fn snapshot(&self) -> (r: WorldSnapshot)
        requires
            self.wf(),
        ensures
            r.vfs.wf(),
            r.vfs@ == self.vfs_view(),
            r.vfs.root_view() == self.vfs.root_view(),
    {
        WorldSnapshot { vfs: self.vfs.clone_state() }
    }
}

/// Ghost model of the feedback latch across a run of loop turns: the roots
/// still being scanned, whether the feedback went out, and how often.
pub ghost struct FeedbackModel {
    pub roots: nat,
    pub sent: bool,
    pub emits: nat,
}

/// One loop turn of the model: `dec` says whether this turn merged an
/// indexed library (decrementing the counter), after which the feedback
/// check runs as `check_workspace_loaded` promises.
pub open spec fn feedback_step(m: FeedbackModel, dec: bool, internal: bool) -> FeedbackModel {
    let roots = if dec && m.roots > 0 {
        (m.roots - 1) as nat
    } else {
        m.roots
    };
    let emit = roots == 0 && !m.sent && internal;
    FeedbackModel {
        roots,
        sent: m.sent || emit,
        emits: m.emits + if emit {
            1nat
        } else {
            0nat
        },
    }
}

/// The model after a whole run of turns, starting with `r0` roots to scan,
/// nothing sent, nothing emitted.
pub open spec fn feedback_run(r0: nat, decs: Seq<bool>, internal: bool) -> FeedbackModel
    decreases decs.len(),
{
    if decs.len() == 0 {
        FeedbackModel { roots: r0, sent: false, emits: 0 }
    } else {
        feedback_step(feedback_run(r0, decs.drop_last(), internal), decs.last(), internal)
    }
}

/// Across any run of turns, the "workspace loaded" feedback is emitted at
/// most once; exactly once when internal mode is on and the scan counter
/// reached zero during some turn; and never when internal mode is off.
pub proof fn lemma_workspace_loaded_once(r0: nat, decs: Seq<bool>, internal: bool)
    ensures
        feedback_run(r0, decs, internal).emits <= 1,
        feedback_run(r0, decs, internal).sent == (feedback_run(r0, decs, internal).emits == 1),
        !internal ==> feedback_run(r0, decs, internal).emits == 0,
        internal ==> ((feedback_run(r0, decs, internal).emits == 1) == (decs.len() > 0
            && feedback_run(r0, decs, internal).roots == 0)),
    decreases decs.len(),
{
    if decs.len() > 0 {
        lemma_workspace_loaded_once(r0, decs.drop_last(), internal);
    }
}

} // verus!
