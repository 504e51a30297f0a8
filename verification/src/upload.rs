//! The one-time write of the vertex data: map, copy, unmap.
//!
//! The caller performs each [`UploadAction`] on the buffer and reports
//! whether it succeeded.

use vstd::prelude::*;

verus! {

/// The outcome the upload is waiting to hear.
#[derive(Clone, Copy, PartialEq, Eq, Structural, Debug)]
pub enum UploadPending {
    Mapping,
    Copying,
    Unmapping,
    Nothing,
}

#[derive(Clone, Copy, PartialEq, Eq, Structural, Debug)]
pub enum UploadError {
    MapFailed,
    CopyFailed,
}

/// What the caller is to do next.
#[derive(Clone, Copy, PartialEq, Eq, Structural, Debug)]
pub enum UploadAction {
    /// Map the whole buffer for writing; the CPU reads none of it.
    MapBuffer,
    /// Copy `len` bytes to the start of the mapped range.
    CopyBytes { len: usize },
    UnmapBuffer,
    Finished,
    Failed(UploadError),
}

/// State of an upload between two actions.
#[derive(Clone, Copy, PartialEq, Eq, Structural, Debug)]
pub struct Upload {
    pub pending: UploadPending,
    /// Bytes to copy.
    pub len: usize,
    /// Whether the copy was reported as failed.
    pub copy_failed: bool,
}

/// The action that ends an upload.
pub open spec fn verdict(copy_failed: bool) -> UploadAction {
    if copy_failed {
        UploadAction::Failed(UploadError::CopyFailed)
    } else {
        UploadAction::Finished
    }
}

/// The transition function of an upload; `succeeded` tells how the last
/// action went.
pub open spec fn spec_upload_step(s: Upload, succeeded: bool) -> (Upload, UploadAction) {
    match s.pending {
        UploadPending::Mapping => if succeeded {
            (Upload { pending: UploadPending::Copying, ..s }, UploadAction::CopyBytes { len: s.len })
        } else {
            (
                Upload { pending: UploadPending::Nothing, ..s },
                UploadAction::Failed(UploadError::MapFailed),
            )
        },
        UploadPending::Copying => (
            Upload { pending: UploadPending::Unmapping, copy_failed: !succeeded, ..s },
            UploadAction::UnmapBuffer,
        ),
        UploadPending::Unmapping => (
            Upload { pending: UploadPending::Nothing, ..s },
            verdict(s.copy_failed),
        ),
        UploadPending::Nothing => (s, UploadAction::Finished),
    }
}

impl Upload {
    /// Whether the buffer is mapped and its unmap has not been asked for yet.
    pub open spec fn unmap_owed(self) -> bool {
        self.pending == UploadPending::Copying
    }

    /// An upload of `len` bytes, and its first action: mapping the buffer.
    pub fn begin(len: usize) -> (r: (Upload, UploadAction))
        ensures
            r.0 == (Upload { pending: UploadPending::Mapping, len, copy_failed: false }),
            r.1 == UploadAction::MapBuffer,
            !r.0.unmap_owed(),
    {
        (Upload { pending: UploadPending::Mapping, len, copy_failed: false }, UploadAction::MapBuffer)
    }

    /// Takes the outcome of the last action and says what to do next.
    pub fn step(&mut self, succeeded: bool) -> (action: UploadAction)
        ensures
            (*final(self), action) == spec_upload_step(*old(self), succeeded),
    {
        match self.pending {
            UploadPending::Mapping => {
                if succeeded {
                    self.pending = UploadPending::Copying;
                    UploadAction::CopyBytes { len: self.len }
                } else {
                    self.pending = UploadPending::Nothing;
                    UploadAction::Failed(UploadError::MapFailed)
                }
            },
            UploadPending::Copying => {
                self.pending = UploadPending::Unmapping;
                self.copy_failed = !succeeded;
                UploadAction::UnmapBuffer
            },
            UploadPending::Unmapping => {
                self.pending = UploadPending::Nothing;
                if self.copy_failed {
                    UploadAction::Failed(UploadError::CopyFailed)
                } else {
                    UploadAction::Finished
                }
            },
            UploadPending::Nothing => UploadAction::Finished,
        }
    }
}

/// The state after the upload has heard `outcomes`, oldest first.
pub open spec fn upload_after(s: Upload, outcomes: Seq<bool>) -> Upload
    decreases outcomes.len(),
{
    if outcomes.len() == 0 {
        s
    } else {
        spec_upload_step(upload_after(s, outcomes.drop_last()), outcomes.last()).0
    }
}

/// The actions handed out while the upload heard `outcomes`, one per outcome.
pub open spec fn upload_actions(s: Upload, outcomes: Seq<bool>) -> Seq<UploadAction>
    decreases outcomes.len(),
{
    if outcomes.len() == 0 {
        Seq::empty()
    } else {
        upload_actions(s, outcomes.drop_last()).push(
            spec_upload_step(upload_after(s, outcomes.drop_last()), outcomes.last()).1,
        )
    }
}

/// Number of unmaps among `actions`.
pub open spec fn unmap_count(actions: Seq<UploadAction>) -> nat
    decreases actions.len(),
{
    if actions.len() == 0 {
        0
    } else {
        unmap_count(actions.drop_last()) + if actions.last() == UploadAction::UnmapBuffer {
            1nat
        } else {
            0nat
        }
    }
}

/// Number of copies among `actions`; a copy is handed out exactly when a map
/// succeeded.
pub open spec fn copy_count(actions: Seq<UploadAction>) -> nat
    decreases actions.len(),
{
    if actions.len() == 0 {
        0
    } else {
        copy_count(actions.drop_last()) + if actions.last() is CopyBytes {
            1nat
        } else {
            0nat
        }
    }
}

/// Whatever the copy reports, the next action is the unmap, and the upload
/// ends only after it.
pub proof fn lemma_copy_then_unmap(s: Upload, succeeded: bool)
    requires
        s.pending == UploadPending::Copying,
    ensures
        spec_upload_step(s, succeeded).1 == UploadAction::UnmapBuffer,
        spec_upload_step(s, succeeded).0.pending == UploadPending::Unmapping,
        forall|later: bool|
            #![auto]
            spec_upload_step(spec_upload_step(s, succeeded).0, later) == (
                Upload { pending: UploadPending::Nothing, len: s.len, copy_failed: !succeeded },
                verdict(!succeeded),
            ),
{
}

/// On every path of an upload, each successful map is matched by one unmap:
/// exactly one unmap is outstanding while the copy is under way, and none at
/// any other time, whatever the copy reports.
pub proof fn lemma_every_map_unmapped(len: usize, outcomes: Seq<bool>)
    ensures
        ({
            let start = Upload { pending: UploadPending::Mapping, len, copy_failed: false };
            let end = upload_after(start, outcomes);
            let actions = upload_actions(start, outcomes);
            &&& actions.len() == outcomes.len()
            &&& end.unmap_owed() ==> copy_count(actions) == unmap_count(actions) + 1
            &&& !end.unmap_owed() ==> copy_count(actions) == unmap_count(actions)
            &&& end.pending == UploadPending::Unmapping ==> actions.len() > 0 && actions.last()
                == UploadAction::UnmapBuffer
        }),
    decreases outcomes.len(),
{
    let start = Upload { pending: UploadPending::Mapping, len, copy_failed: false };
    if outcomes.len() > 0 {
        lemma_every_map_unmapped(len, outcomes.drop_last());
        let earlier = upload_actions(start, outcomes.drop_last());
        let actions = upload_actions(start, outcomes);
        assert(actions.drop_last() =~= earlier);
    }
}

} // verus!
