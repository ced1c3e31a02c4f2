//! The first, full copy of the source tree into its mirror.
use crate::jobs::{
    CompletionStatus, CompletionStatusText, JobIdSource, JobKind, JobKindText, PendingJob,
    ShadowCopyJobText,
};
use crate::paths::ComponentPath;
use crate::shadow_copy_destination::{FileCopy, ShadowCopyDestination};
use vstd::prelude::*;
use vstd::string::*;

verus! {

/// Copies every file of the source tree into the mirror. Whoever runs the
/// job walks the source tree, shows the job each entry that the walk brings,
/// and copies what the job tells it to.
#[derive(Debug)]
pub struct ShadowCopyJob {
    pub destination: ShadowCopyDestination,
    /// The number of files that the walk has brought.
    pub num_files_copied: usize,
}

impl View for ShadowCopyJob {
    type V = ShadowCopyJobText;

    open spec fn view(&self) -> ShadowCopyJobText {
        ShadowCopyJobText {
            destination: self.destination@,
            num_files_copied: self.num_files_copied,
        }
    }
}

impl ShadowCopyJob {
    /// Create a new shadow copy job, at the time `now`, to copy from the
    /// source directory to the destination directory of
    /// `destination_directory`, which has to have one.
    pub fn new(
        destination_directory: ShadowCopyDestination,
        ids: &mut JobIdSource,
        now: i64,
    ) -> (job: PendingJob)
        requires
            destination_directory@.is_copying(),
        ensures
            job.id.id == old(ids).upcoming(),
            final(ids).upcoming() == old(ids).following(),
            job.creation_date == now,
            job.kind@ == JobKindText::ShadowCopy(
                ShadowCopyJobText { destination: destination_directory@, num_files_copied: 0 },
            ),
    {
        let kind = JobKind::ShadowCopy(
            ShadowCopyJob { destination: destination_directory, num_files_copied: 0 },
        );
        PendingJob::new(kind, ids, now)
    }

    /// Takes in one entry of the walk through the source tree and says what
    /// is to be copied for it. A directory needs no copy: it is made when
    /// the first file in it is copied. Every other entry is counted; the
    /// count stops at the greatest number there is.
    pub fn visit(&mut self, path: &ComponentPath, is_directory: bool) -> (r: Option<FileCopy>)
        ensures
            final(self).destination == old(self).destination,
            final(self).num_files_copied == (if is_directory || old(self).num_files_copied
                == usize::MAX {
                old(self).num_files_copied
            } else {
                (old(self).num_files_copied + 1) as usize
            }),
            match r {
                Some(copy) => !is_directory && copy.from@ == path@ && old(
                    self,
                ).destination@.mirror_of(path@) == Some(copy.to@),
                None => is_directory || old(self).destination@.mirror_of(path@) is None,
            },
    {
        if is_directory {
            return None;
        }
        if self.num_files_copied < usize::MAX {
            self.num_files_copied = self.num_files_copied + 1;
        }
        self.destination.copy_file(path)
    }

    /// Why a copy fails whose source is no directory.
    pub open spec fn no_directory_message() -> Seq<char> {
        "The source directory is not a directory"@
    }

    /// Ends the job. `source_is_directory` says whether there was a source
    /// directory to walk through: without one the job has failed. Else the
    /// job has succeeded when the walk is over, even if a file could not be
    /// copied: a mirror with gaps is still of use, and the changes that
    /// follow fill them.
    pub fn execute(&mut self, source_is_directory: bool) -> (status: CompletionStatus)
        ensures
            *final(self) == *old(self),
            status@ == (if source_is_directory {
                CompletionStatusText::Success
            } else {
                CompletionStatusText::Error(Self::no_directory_message())
            }),
    {
        if source_is_directory {
            CompletionStatus::Success
        } else {
            CompletionStatus::Error(String::from_str("The source directory is not a directory"))
        }
    }
}

impl Clone for ShadowCopyJob {
    fn clone(&self) -> (r: Self)
        ensures
            r@ == self@,
    {
        ShadowCopyJob {
            destination: self.destination.clone(),
            num_files_copied: self.num_files_copied,
        }
    }
}

} // verus!
