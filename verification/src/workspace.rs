//! The per-request workspace: a private filesystem scope holding exactly a
//! source file and an auxiliary parameter file.
//!
//! The workspace exists for the lifetime of one request and is destroyed
//! unconditionally when the request finishes, on every exit path. This module
//! is the verified model of that scope: it tracks what the two files hold and
//! whether the scope was torn down. The directory allocation and the file I/O
//! themselves stand outside the library and must meet these contracts.

use vstd::prelude::*;

verus! {

/// Abstract state of a workspace: the contents of the two files, if written,
/// and whether the scope was torn down.
pub struct WorkspaceView {
    pub source: Option<Seq<char>>,
    pub aux: Option<Seq<char>>,
    pub destroyed: bool,
}

/// A per-request workspace.
pub struct Workspace {
    pub source: Option<String>,
    pub aux: Option<String>,
    pub destroyed: bool,
}

impl View for Workspace {
    type V = WorkspaceView;

    open spec fn view(&self) -> WorkspaceView {
        WorkspaceView {
            source: self.source.deep_view(),
            aux: self.aux.deep_view(),
            destroyed: self.destroyed,
        }
    }
}

/// A fresh workspace: nothing written, not destroyed.
pub open spec fn spec_create() -> WorkspaceView {
    WorkspaceView { source: None, aux: None, destroyed: false }
}

/// Writing the source file overwrites or creates it and touches nothing else.
pub open spec fn spec_write_source(w: WorkspaceView, text: Seq<char>) -> WorkspaceView {
    WorkspaceView { source: Some(text), ..w }
}

/// Writing the auxiliary file overwrites or creates it and touches nothing else.
pub open spec fn spec_write_aux(w: WorkspaceView, text: Seq<char>) -> WorkspaceView {
    WorkspaceView { aux: Some(text), ..w }
}

/// Reading the source file yields exactly what it holds.
pub open spec fn spec_read_source(w: WorkspaceView) -> Option<Seq<char>> {
    w.source
}

/// Destruction removes the directory and both files, whatever was or was not
/// written, and is permitted in every state.
pub open spec fn spec_destroy(w: WorkspaceView) -> WorkspaceView {
    WorkspaceView { source: None, aux: None, destroyed: true }
}

impl Workspace {
    /// Allocates a fresh, exclusive scope with neither file written.
    pub fn create() -> (w: Workspace)
        ensures
            w@ == spec_create(),
    {
        Workspace { source: None, aux: None, destroyed: false }
    }

    /// Overwrites or creates the source file.
    pub fn write_source(&mut self, text: String)
        requires
            !old(self)@.destroyed,
        ensures
            final(self)@ == spec_write_source(old(self)@, text@),
    {
        self.source = Some(text);
    }

    /// Overwrites or creates the auxiliary parameter file.
    pub fn write_aux(&mut self, text: String)
        requires
            !old(self)@.destroyed,
        ensures
            final(self)@ == spec_write_aux(old(self)@, text@),
    {
        self.aux = Some(text);
    }

    /// Reads the source file back, for example after an in-place reformat.
    pub fn read_source(&self) -> (r: Option<String>)
        ensures
            r.deep_view() == spec_read_source(self@),
    {
        match &self.source {
            Some(s) => Some(s.clone()),
            None => None,
        }
    }

    /// Tears the scope down. Permitted in every state — before anything was
    /// written, after an error, or on a workspace already destroyed.
    pub fn destroy(&mut self)
        ensures
            final(self)@ == spec_destroy(old(self)@),
    {
        self.source = None;
        self.aux = None;
        self.destroyed = true;
    }
}

/// Round trip: source text written to a workspace is read back unchanged,
/// character for character, as long as no reformat ran in between.
pub proof fn lemma_source_round_trip(w: WorkspaceView, text: Seq<char>)
    ensures
        spec_read_source(spec_write_source(w, text)) == Some(text),
{
}

/// Writing the auxiliary file afterwards does not disturb the source text:
/// the round trip still returns it unchanged.
pub proof fn lemma_aux_write_preserves_source(w: WorkspaceView, text: Seq<char>, aux: Seq<char>)
    ensures
        spec_read_source(spec_write_aux(spec_write_source(w, text), aux)) == Some(text),
{
}

/// Cleanup is idempotent and total: destroying a workspace twice leaves the
/// same state as destroying it once, and destruction is permitted in every
/// state, including a workspace whose files were never written.
pub proof fn lemma_destroy_idempotent(w: WorkspaceView)
    ensures
        spec_destroy(spec_destroy(w)) == spec_destroy(w),
        spec_destroy(spec_create()) == spec_destroy(w),
{
}

} // verus!
