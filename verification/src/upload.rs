//! Decisions of the upload receiver: which multipart part supplies the
//! file, when the request is malformed, and the life of one task.
//!
//! The transport streams each named part to transient storage as it
//! walks the body; the library decides, from the parts' filenames alone,
//! whether the request is acceptable and which filename names the task.

use vstd::prelude::*;
use crate::errors::ServiceError;
use crate::task::TaskCounter;

verus! {

/// What the upload receiver concludes from the filenames of the
/// multipart parts, in body order.
pub open spec fn spec_select_upload(parts: Seq<Option<String>>) -> Result<
    Seq<char>,
    ServiceError,
> {
    if exists|i: int| 0 <= i < parts.len() && parts[i] is None {
        Err(ServiceError::NoFilename)
    } else if parts.len() == 0 {
        Err(ServiceError::NoFileUploaded)
    } else {
        Ok(parts[parts.len() - 1].unwrap()@)
    }
}

/// Chooses the uploaded file among the multipart parts.
///
/// Any part without a filename fails the whole request; a body with no
/// part at all reports that no file was uploaded; otherwise the last
/// named part is the upload (a later part of the same name overwrote an
/// earlier one in transient storage).
pub fn select_upload(parts: &Vec<Option<String>>) -> (r: Result<String, ServiceError>)
    ensures
        r is Ok <==> spec_select_upload(parts@) is Ok,
        r matches Ok(name) ==> Ok::<Seq<char>, ServiceError>(name@) == spec_select_upload(parts@),
        r matches Err(e) ==> (spec_select_upload(parts@) matches Err(e2) && ((e is NoFilename
            && e2 is NoFilename) || (e is NoFileUploaded && e2 is NoFileUploaded))),
{
    let n = parts.len();
    let mut i: usize = 0;
    while i < n
        invariant
            n == parts@.len(),
            i <= n,
            forall|j: int| 0 <= j < i ==> parts@[j] is Some,
        decreases n - i,
    {
        if parts[i].is_none() {
            return Err(ServiceError::NoFilename);
        }
        i += 1;
    }
    if n == 0 {
        return Err(ServiceError::NoFileUploaded);
    }
    match &parts[n - 1] {
        Some(name) => Ok(name.clone()),
        None => {
            proof {
                assert(false);
            }
            Err(ServiceError::NoFilename)
        },
    }
}

/// Closes the upload phase of one request: picks the uploaded file and,
/// only when one was supplied, advances the task allocator.
///
/// A malformed upload leaves the allocator exactly as it was, so failed
/// requests consume no ids.
pub fn allocate_for_upload(counter: &mut TaskCounter, parts: &Vec<Option<String>>) -> (r: Result<
    (String, i32),
    ServiceError,
>)
    requires
        old(counter).spec_count() < i32::MAX,
    ensures
        r is Err ==> *final(counter) == *old(counter),
        r matches Err(e) ==> (spec_select_upload(parts@) matches Err(e2) && ((e is NoFilename
            && e2 is NoFilename) || (e is NoFileUploaded && e2 is NoFileUploaded))),
        r matches Ok(p) ==> (Ok::<Seq<char>, ServiceError>(p.0@) == spec_select_upload(parts@)
            && p.1 == old(counter).spec_count() + 1 && final(counter).spec_count() == old(
            counter,
        ).spec_count() + 1),
{
    match select_upload(parts) {
        Err(e) => Err(e),
        Ok(name) => {
            let id = counter.next_id();
            Ok((name, id))
        },
    }
}

/// The states one conversion task moves through.
#[derive(Debug, Clone, Copy, PartialEq, Eq, Structural)]
pub enum TaskState {
    /// The upload part was recognised.
    Created,
    /// Chunks are being written to transient storage.
    Uploading,
    /// The payload is flushed, an id allocated, the engine running.
    Converting,
    /// Validation succeeded; the artifact is downloadable.
    Ready,
    /// A receiver or engine step failed.
    Failed,
}

/// What happens to a task and moves it between states.
#[derive(Debug, Clone, Copy, PartialEq, Eq, Structural)]
pub enum TaskEvent {
    /// A chunk of the upload arrived and was written.
    ChunkWritten,
    /// The whole payload is flushed and durably synced.
    UploadFlushed,
    /// The engine validated the written artifact.
    ConversionValidated,
    /// A receiver or engine step reported an error.
    StepFailed,
}

/// `Ready` and `Failed` are terminal: nothing moves a task out of them.
pub open spec fn spec_is_terminal(s: TaskState) -> bool {
    s is Ready || s is Failed
}

/// The per-task transition relation; `None` refuses the event.
pub open spec fn spec_task_step(s: TaskState, e: TaskEvent) -> Option<TaskState> {
    match (s, e) {
        (TaskState::Created, TaskEvent::ChunkWritten) => Some(TaskState::Uploading),
        (TaskState::Created, TaskEvent::UploadFlushed) => Some(TaskState::Converting),
        (TaskState::Created, TaskEvent::StepFailed) => Some(TaskState::Failed),
        (TaskState::Uploading, TaskEvent::ChunkWritten) => Some(TaskState::Uploading),
        (TaskState::Uploading, TaskEvent::UploadFlushed) => Some(TaskState::Converting),
        (TaskState::Uploading, TaskEvent::StepFailed) => Some(TaskState::Failed),
        (TaskState::Converting, TaskEvent::ConversionValidated) => Some(TaskState::Ready),
        (TaskState::Converting, TaskEvent::StepFailed) => Some(TaskState::Failed),
        _ => None,
    }
}

/// Advances one task's state by one event.
pub fn task_step(s: TaskState, e: TaskEvent) -> (r: Option<TaskState>)
    ensures
        r == spec_task_step(s, e),
{
    match (s, e) {
        (TaskState::Created, TaskEvent::ChunkWritten) => Some(TaskState::Uploading),
        (TaskState::Created, TaskEvent::UploadFlushed) => Some(TaskState::Converting),
        (TaskState::Created, TaskEvent::StepFailed) => Some(TaskState::Failed),
        (TaskState::Uploading, TaskEvent::ChunkWritten) => Some(TaskState::Uploading),
        (TaskState::Uploading, TaskEvent::UploadFlushed) => Some(TaskState::Converting),
        (TaskState::Uploading, TaskEvent::StepFailed) => Some(TaskState::Failed),
        (TaskState::Converting, TaskEvent::ConversionValidated) => Some(TaskState::Ready),
        (TaskState::Converting, TaskEvent::StepFailed) => Some(TaskState::Failed),
        _ => None,
    }
}

/// Law: no event leaves a terminal state, and no retry or resumption
/// transition exists out of `Failed` or `Ready`.
pub proof fn lemma_terminal_states_absorb(s: TaskState, e: TaskEvent)
    requires
        spec_is_terminal(s),
    ensures
        spec_task_step(s, e) is None,
{
}

} // verus!
