//! One change of the source tree, brought to the mirror.
use crate::jobs::{
    CompletionStatus, CompletionStatusText, FileSyncJobText, JobIdSource, JobKind, JobKindText,
    PendingJob,
};
use crate::paths::ComponentPath;
use crate::shadow_copy_destination::{FileCopy, ShadowCopyDestination};
use crate::source_directory_watcher::{FileSyncEvent, FileSyncEventPath};
use vstd::prelude::*;
use vstd::string::*;

verus! {

/// Brings one change of the source tree to the mirror: copies a file that
/// was written, or removes what was removed.
#[derive(Debug)]
pub struct FileSyncJob {
    pub destination: ShadowCopyDestination,
    pub file_sync_event: FileSyncEvent,
}

impl View for FileSyncJob {
    type V = FileSyncJobText;

    open spec fn view(&self) -> FileSyncJobText {
        FileSyncJobText {
            destination: self.destination@,
            file_sync_event: self.file_sync_event@,
        }
    }
}

/// What is to be done in the mirror.
#[derive(Debug)]
pub enum SyncAction {
    /// Nothing: the path has no place in the mirror.
    Nothing,
    /// The file is to be copied, if it is a file.
    Copy(FileCopy),
    /// The path is to be removed: a directory with all that it holds.
    Remove(ComponentPath),
}

/// What came of a `SyncAction`.
#[derive(Debug, Clone, Copy, PartialEq, Eq, Structural)]
pub enum SyncOutcome {
    /// It was done.
    Done,
    /// It could not be done.
    Failed,
    /// The path that was to be copied is no file.
    NotAFile,
    /// There was nothing to do: the path has no place in the mirror.
    NoPlace,
}

impl FileSyncJob {
    /// Create a new job, at the time `now`, that brings the change
    /// `file_sync_event` to the destination directory of
    /// `destination_directory`, which has to have one.
    pub fn new(
        destination_directory: ShadowCopyDestination,
        file_sync_event: FileSyncEvent,
        ids: &mut JobIdSource,
        now: i64,
    ) -> (job: PendingJob)
        requires
            destination_directory@.is_copying(),
        ensures
            job.id.id == old(ids).upcoming(),
            final(ids).upcoming() == old(ids).following(),
            job.creation_date == now,
            job.kind@ == JobKindText::FileSync(
                FileSyncJobText {
                    destination: destination_directory@,
                    file_sync_event: file_sync_event@,
                },
            ),
    {
        let kind = JobKind::FileSync(
            FileSyncJob { destination: destination_directory, file_sync_event },
        );
        PendingJob::new(kind, ids, now)
    }

    /// Says what is to be done in the mirror.
    pub fn action(&self) -> (r: SyncAction)
        ensures
            match self@.file_sync_event {
                FileSyncEventPath::FileUpdate(path) => match self@.destination.mirror_of(path) {
                    Some(to) => (r matches SyncAction::Copy(copy) && copy.from@ == path
                        && copy.to@ == to),
                    None => r is Nothing,
                },
                FileSyncEventPath::Remove(path) => match self@.destination.mirror_of(path) {
                    Some(mirror) => (r matches SyncAction::Remove(p) && p@ == mirror),
                    None => r is Nothing,
                },
            },
    {
        match &self.file_sync_event {
            FileSyncEvent::FileUpdate(path) => match self.destination.copy_file(path) {
                Some(copy) => SyncAction::Copy(copy),
                None => SyncAction::Nothing,
            },
            FileSyncEvent::Remove(path) => match self.destination.remove_file_or_directory(path) {
                Some(mirror) => SyncAction::Remove(mirror),
                None => SyncAction::Nothing,
            },
        }
    }

    /// Why the job has failed, where `outcome` is a failure.
    pub open spec fn failure_message(
        event: FileSyncEventPath,
        outcome: SyncOutcome,
    ) -> Seq<char> {
        match event {
            FileSyncEventPath::FileUpdate(_) => if outcome == SyncOutcome::NotAFile {
                "The path is not a file"@
            } else {
                "Copying the file failed"@
            },
            FileSyncEventPath::Remove(_) => "Removing the path failed"@,
        }
    }

    /// Ends the job: it has succeeded if what was to be done was done. A
    /// job for a path that has no place in the mirror has failed.
    pub fn execute(&mut self, outcome: SyncOutcome) -> (status: CompletionStatus)
        ensures
            *final(self) == *old(self),
            status@ == (if outcome == SyncOutcome::Done {
                CompletionStatusText::Success
            } else {
                CompletionStatusText::Error(
                    Self::failure_message(old(self)@.file_sync_event, outcome),
                )
            }),
    {
        match outcome {
            SyncOutcome::Done => CompletionStatus::Success,
            _ => {
                let message = match &self.file_sync_event {
                    FileSyncEvent::FileUpdate(_) => match outcome {
                        SyncOutcome::NotAFile => "The path is not a file",
                        _ => "Copying the file failed",
                    },
                    FileSyncEvent::Remove(_) => "Removing the path failed",
                };
                CompletionStatus::Error(String::from_str(message))
            },
        }
    }
}

impl Clone for FileSyncJob {
    fn clone(&self) -> (r: Self)
        ensures
            r@ == self@,
    {
        FileSyncJob {
            destination: self.destination.clone(),
            file_sync_event: self.file_sync_event.clone(),
        }
    }
}

} // verus!
