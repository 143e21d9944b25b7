//! The orchestrator as an explicit state machine. One task runs through the
//! stages in order; the surrounding worker performs each returned action
//! (status writes, downloads, the conversion, model calls, uploads, the
//! downstream publish) and feeds the outcome back as the next event. Every
//! failure takes the single abort transition, so the rules "mark `Failed`
//! only on the final attempt" and "temporary files are gone on every exit
//! path" are enforced in one place: a terminal state never holds a live
//! temporary file, and the abort emits their removal.

use vstd::prelude::*;

use crate::aggregate::effective_batch_size;
use crate::segment::{offset_batch, Segment};
use crate::task::{
    failure_message_spec, processing_message, processing_message_spec, segmenting_message,
    segmenting_message_spec, classify_failure,
};

verus! {

/// Where one task's run stands.
#[derive(Clone, Copy, Debug, PartialEq, Eq, Structural)]
pub enum Stage {
    /// The task was pulled from the queue; nothing has run.
    Received,
    /// Waiting for download, validation, conversion, upload and persistence
    /// of the normalized PDF.
    Preprocessing,
    /// Waiting for the PDF to be cut into batch files.
    Splitting,
    /// Waiting for the layout model's answer on the next batch.
    Segmenting,
    /// Waiting for the aggregated segment list to reach the output location.
    Uploading,
    /// Waiting for the downstream handoff to be acknowledged.
    Publishing,
    /// The handoff is acknowledged; this stage's responsibility ends.
    Done,
    /// A failure ended the run.
    Aborted,
}

/// A stage nothing leaves.
pub open spec fn stage_terminal(s: Stage) -> bool {
    s == Stage::Done || s == Stage::Aborted
}

/// What the worker is asked to do next.
#[derive(Debug)]
pub enum Action {
    /// Write a `Processing` status with this message.
    MarkProcessing { message: String },
    /// Download the input, validate it, normalize it to a PDF, upload that
    /// and persist its metadata.
    RunPreprocess,
    /// Cut the normalized PDF into batch files.
    RunSplit { pdf_path: String, batch_size: Option<u32> },
    /// Write a `Processing` progress status with this message, then send the
    /// batch file to the layout model.
    SegmentBatch { path: String, message: String },
    /// Serialize the aggregated segments and upload them to the output
    /// location.
    UploadResult,
    /// Enqueue the downstream handoff with the original payload.
    PublishDownstream,
    /// Delete these temporary files, best-effort.
    RemoveFiles { paths: Vec<String> },
    /// Write the terminal `Failed` status with this message; asked for only
    /// when the retry budget is exhausted.
    MarkFailed { message: String },
}

/// What the worker reports back.
#[derive(Debug)]
pub enum Event {
    /// Processing begins.
    Started,
    /// Preprocessing finished: where the normalized PDF lies locally, and
    /// which temporary files it left behind.
    Preprocessed { pdf_path: String, temp_paths: Vec<String> },
    /// Splitting finished: the batch files, in order, and the temporary
    /// files the split left behind.
    Split { batch_paths: Vec<String>, temp_paths: Vec<String> },
    /// The layout model answered for the current batch with these segments,
    /// page-numbered within the batch.
    BatchSegmented { batch: Vec<Segment> },
    /// The aggregated result reached the output location.
    Uploaded,
    /// The downstream handoff is acknowledged.
    Published,
    /// Something failed; the text is the underlying error's.
    Failed { error_text: String },
}

/// One task's run.
pub struct Pipeline {
    pub stage: Stage,
    /// 1-based delivery attempt of the queue message.
    pub attempt: u32,
    pub max_attempts: u32,
    /// The configured pages-per-batch; absent means one batch.
    pub batch_size: Option<u32>,
    /// The batch files, in order, once split.
    pub batch_paths: Vec<String>,
    /// Index of the batch whose model answer is awaited.
    pub next_batch: usize,
    /// The aggregated, globally page-numbered segments so far.
    pub segments: Vec<Segment>,
    /// Temporary files alive on disk; empty again before any terminal stage.
    pub temp_files: Vec<String>,
}

impl Pipeline {
    /// The machine's invariant. A terminal stage (and the publishing stage,
    /// which follows the cleanup) holds no live temporary file.
    pub open spec fn wf(self) -> bool {
        &&& self.batch_paths@.len() <= u32::MAX
        &&& self.stage == Stage::Segmenting ==> self.next_batch < self.batch_paths@.len()
        &&& (self.stage == Stage::Publishing || stage_terminal(self.stage))
            ==> self.temp_files@.len() == 0
    }

    /// A fresh run for one queue delivery.
    pub fn new(attempt: u32, max_attempts: u32, batch_size: Option<u32>) -> (p: Pipeline)
        ensures
            p.wf(),
            p.stage == Stage::Received,
            p.attempt == attempt,
            p.max_attempts == max_attempts,
            p.batch_size == batch_size,
            p.next_batch == 0,
            p.batch_paths@.len() == 0,
            p.segments@.len() == 0,
            p.temp_files@.len() == 0,
    {
        Pipeline {
            stage: Stage::Received,
            attempt,
            max_attempts,
            batch_size,
            batch_paths: Vec::new(),
            next_batch: 0,
            segments: Vec::new(),
            temp_files: Vec::new(),
        }
    }
}

/// Idempotent cleanup, the law of the exit paths: however a run ends, well
/// or badly, the machine's invariant leaves no temporary file live in a
/// terminal stage — each transition out (`Uploaded`, `Failed`) has asked for
/// the removal of exactly the files that were live.
pub proof fn lemma_terminal_stage_holds_no_temp_files(p: Pipeline)
    requires
        p.wf(),
        stage_terminal(p.stage),
    ensures
        p.temp_files@.len() == 0,
{
}

/// Whether the machine can take this event in this state: each outcome is
/// accepted only in the stage that awaits it, a failure in any stage that is
/// not already terminal. The arithmetic bounds keep the page offsets of the
/// awaited batch within `u32`.
pub open spec fn event_enabled(p: Pipeline, e: Event) -> bool {
    match e {
        Event::Started => p.stage == Stage::Received,
        Event::Preprocessed { .. } => p.stage == Stage::Preprocessing,
        Event::Split { batch_paths, .. } => {
            &&& p.stage == Stage::Splitting
            &&& 1 <= batch_paths@.len() <= u32::MAX
        },
        Event::BatchSegmented { batch } => {
            &&& p.stage == Stage::Segmenting
            &&& p.next_batch * effective_batch_size(p.batch_size) <= u32::MAX
            &&& forall|j: int|
                0 <= j < batch@.len() ==> batch@[j].page_number + p.next_batch
                    * effective_batch_size(p.batch_size) <= u32::MAX
        },
        Event::Uploaded => p.stage == Stage::Uploading,
        Event::Published => p.stage == Stage::Publishing,
        Event::Failed { .. } => !stage_terminal(p.stage),
    }
}

/// One transition of the orchestrator: takes the event the worker reported
/// and says what to do next. The contract enumerates every transition; in
/// particular, a failure always moves to `Aborted`, always asks for the
/// removal of exactly the live temporary files, and asks for a terminal
/// `Failed` status exactly when the delivery attempts are exhausted.
pub fn step(p: &mut Pipeline, event: Event) -> (actions: Vec<Action>)
    requires
        old(p).wf(),
        event_enabled(*old(p), event),
    ensures
        final(p).wf(),
        final(p).attempt == old(p).attempt,
        final(p).max_attempts == old(p).max_attempts,
        final(p).batch_size == old(p).batch_size,
        stage_terminal(final(p).stage) ==> final(p).temp_files@.len() == 0,
        event matches Event::Started ==> {
            &&& final(p).stage == Stage::Preprocessing
            &&& final(p).segments == old(p).segments
            &&& final(p).temp_files == old(p).temp_files
            &&& actions@.len() == 2
            &&& (actions@[0] matches Action::MarkProcessing { message } && message@
                == processing_message_spec(old(p).attempt as nat, old(p).max_attempts as nat))
            &&& actions@[1] == Action::RunPreprocess
        },
        event matches Event::Preprocessed { pdf_path, temp_paths } ==> {
            &&& final(p).stage == Stage::Splitting
            &&& final(p).segments == old(p).segments
            &&& final(p).temp_files@ == old(p).temp_files@ + temp_paths@
            &&& actions@.len() == 1
            &&& (actions@[0] matches Action::RunSplit { pdf_path: pp, batch_size: bs } && pp
                == pdf_path && bs == old(p).batch_size)
        },
        event matches Event::Split { batch_paths, temp_paths } ==> {
            &&& final(p).stage == Stage::Segmenting
            &&& final(p).batch_paths == batch_paths
            &&& final(p).next_batch == 0
            &&& final(p).segments == old(p).segments
            &&& final(p).temp_files@ == old(p).temp_files@ + temp_paths@
            &&& actions@.len() == 1
            &&& (actions@[0] matches Action::SegmentBatch { path, message } && path
                == batch_paths@[0] && message@ == segmenting_message_spec(
                1,
                batch_paths@.len(),
            ))
        },
        event matches Event::BatchSegmented { batch } ==> {
            &&& final(p).segments@ == old(p).segments@ + offset_batch(
                batch@,
                old(p).next_batch * effective_batch_size(old(p).batch_size),
            )
            &&& final(p).next_batch == old(p).next_batch + 1
            &&& final(p).batch_paths == old(p).batch_paths
            &&& final(p).temp_files == old(p).temp_files
            &&& (old(p).next_batch + 1 < old(p).batch_paths@.len() ==> {
                &&& final(p).stage == Stage::Segmenting
                &&& actions@.len() == 1
                &&& (actions@[0] matches Action::SegmentBatch { path, message } && path == old(
                    p,
                ).batch_paths@[old(p).next_batch + 1] && message@ == segmenting_message_spec(
                    (old(p).next_batch + 2) as nat,
                    old(p).batch_paths@.len(),
                ))
            })
            &&& (old(p).next_batch + 1 == old(p).batch_paths@.len() ==> {
                &&& final(p).stage == Stage::Uploading
                &&& actions@ =~= seq![Action::UploadResult]
            })
        },
        event matches Event::Uploaded ==> {
            &&& final(p).stage == Stage::Publishing
            &&& final(p).segments == old(p).segments
            &&& final(p).temp_files@.len() == 0
            &&& actions@.len() == 2
            &&& (actions@[0] matches Action::RemoveFiles { paths } && paths@ == old(
                p,
            ).temp_files@)
            &&& actions@[1] == Action::PublishDownstream
        },
        event matches Event::Published ==> {
            &&& final(p).stage == Stage::Done
            &&& final(p).segments == old(p).segments
            &&& actions@.len() == 0
        },
        event matches Event::Failed { error_text } ==> {
            &&& final(p).stage == Stage::Aborted
            &&& final(p).temp_files@.len() == 0
            &&& (actions@[0] matches Action::RemoveFiles { paths } && paths@ == old(
                p,
            ).temp_files@)
            &&& (old(p).attempt >= old(p).max_attempts ==> actions@.len() == 2 && (actions@[1]
                matches Action::MarkFailed { message } && message@ == failure_message_spec(
                error_text@,
            )))
            &&& (old(p).attempt < old(p).max_attempts ==> actions@.len() == 1)
        },
{
    let mut actions: Vec<Action> = Vec::new();
    match event {
        Event::Started => {
            p.stage = Stage::Preprocessing;
            actions.push(
                Action::MarkProcessing {
                    message: processing_message(p.attempt, p.max_attempts),
                },
            );
            actions.push(Action::RunPreprocess);
        },
        Event::Preprocessed { pdf_path, mut temp_paths } => {
            p.stage = Stage::Splitting;
            p.temp_files.append(&mut temp_paths);
            actions.push(Action::RunSplit { pdf_path, batch_size: p.batch_size });
        },
        Event::Split { batch_paths, mut temp_paths } => {
            p.stage = Stage::Segmenting;
            p.next_batch = 0;
            p.temp_files.append(&mut temp_paths);
            let total: u32 = batch_paths.len() as u32;
            let path = batch_paths[0].clone();
            p.batch_paths = batch_paths;
            actions.push(Action::SegmentBatch { path, message: segmenting_message(1, total) });
        },
        Event::BatchSegmented { batch } => {
            let eff: u32 = match p.batch_size {
                Some(b) => b,
                None => 1,
            };
            let offset: u32 = (p.next_batch as u32) * eff;
            crate::aggregate::extend_with_offset(&mut p.segments, &batch, offset);
            p.next_batch = p.next_batch + 1;
            if p.next_batch < p.batch_paths.len() {
                let total: u32 = p.batch_paths.len() as u32;
                let number: u32 = (p.next_batch as u32) + 1;
                let path = p.batch_paths[p.next_batch].clone();
                actions.push(
                    Action::SegmentBatch { path, message: segmenting_message(number, total) },
                );
            } else {
                p.stage = Stage::Uploading;
                actions.push(Action::UploadResult);
            }
        },
        Event::Uploaded => {
            p.stage = Stage::Publishing;
            let mut temps: Vec<String> = Vec::new();
            core::mem::swap(&mut temps, &mut p.temp_files);
            actions.push(Action::RemoveFiles { paths: temps });
            actions.push(Action::PublishDownstream);
        },
        Event::Published => {
            p.stage = Stage::Done;
        },
        Event::Failed { error_text } => {
            p.stage = Stage::Aborted;
            let mut temps: Vec<String> = Vec::new();
            core::mem::swap(&mut temps, &mut p.temp_files);
            actions.push(Action::RemoveFiles { paths: temps });
            if p.attempt >= p.max_attempts {
                actions.push(
                    Action::MarkFailed { message: classify_failure(error_text.as_str()) },
                );
            }
        },
    }
    actions
}

} // verus!
