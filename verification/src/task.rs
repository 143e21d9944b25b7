//! The persisted task row and its status tracker: one field-set per update,
//! a fixed set of allowed transitions, and `finished_at` set exactly on the
//! two terminal transitions. Also the retry policy: a failure becomes a
//! terminal `Failed` record only once the delivery attempts are exhausted,
//! with a message that singles out a usage-limit condition.

use vstd::prelude::*;

use crate::adapters::now_timestamp;
use crate::text::{contains_ci, contains_ci_str, dec_digits, u32_string};

verus! {

/// Where a task stands.
#[derive(Clone, Copy, Debug, PartialEq, Eq, Structural)]
pub enum Status {
    Starting,
    Processing,
    Succeeded,
    Failed,
}

/// A terminal status: the task is finished, well or badly.
pub open spec fn is_terminal(s: Status) -> bool {
    s == Status::Succeeded || s == Status::Failed
}

/// The transitions the tracker allows: into `Processing` on pipeline entry,
/// repeated `Processing` progress updates, and the two terminal transitions
/// out of `Processing`. Nothing leaves a terminal status.
pub open spec fn valid_transition(from: Status, to: Status) -> bool {
    ||| (from == Status::Starting && to == Status::Processing)
    ||| (from == Status::Processing && to == Status::Processing)
    ||| (from == Status::Processing && is_terminal(to))
}

/// The persisted task row, keyed elsewhere by task and user.
pub struct TaskRecord {
    pub status: Status,
    /// Human-readable progress or failure text.
    pub message: String,
    /// Seconds since the epoch; set exactly on the terminal transitions.
    pub finished_at: Option<i64>,
    /// Where the normalized PDF was uploaded.
    pub pdf_location: String,
    pub page_count: usize,
    /// The extension the input arrived with.
    pub input_file_type: String,
    /// The name the task was submitted under.
    pub file_name: String,
}

/// The row's invariant: a finish time is recorded exactly on the terminal
/// statuses.
pub open spec fn task_wf(t: TaskRecord) -> bool {
    t.finished_at is Some <==> is_terminal(t.status)
}

/// One status update, the only way the tracker touches the row: status,
/// message (empty when none is given) and finish time move together; the
/// preprocessing fields stay. Only a valid transition may be asked for, and
/// a finish time accompanies exactly the terminal statuses, so the row's
/// invariant holds afterwards.
pub fn log_task(task: &mut TaskRecord, status: Status, message: Option<String>, finished_at: Option<
    i64,
>)
    requires
        valid_transition(old(task).status, status),
        finished_at is Some <==> is_terminal(status),
    ensures
        final(task).status == status,
        final(task).message@ == match message {
            Some(m) => m@,
            None => Seq::<char>::empty(),
        },
        final(task).finished_at == finished_at,
        final(task).pdf_location == old(task).pdf_location,
        final(task).page_count == old(task).page_count,
        final(task).input_file_type == old(task).input_file_type,
        final(task).file_name == old(task).file_name,
        task_wf(*final(task)),
{
    task.status = status;
    task.message = match message {
        Some(m) => m,
        None => String::new(),
    };
    task.finished_at = finished_at;
}

/// The one update preprocessing makes: the normalized PDF's location, the
/// page count and the detected file type are persisted together; status,
/// message and finish time stay.
pub fn set_preprocess_result(
    task: &mut TaskRecord,
    pdf_location: String,
    page_count: usize,
    input_file_type: String,
)
    ensures
        final(task).pdf_location == pdf_location,
        final(task).page_count == page_count,
        final(task).input_file_type == input_file_type,
        final(task).status == old(task).status,
        final(task).message == old(task).message,
        final(task).finished_at == old(task).finished_at,
        final(task).file_name == old(task).file_name,
        task_wf(*old(task)) ==> task_wf(*final(task)),
{
    task.pdf_location = pdf_location;
    task.page_count = page_count;
    task.input_file_type = input_file_type;
}

/// The progress message on pipeline entry.
pub open spec fn processing_message_spec(attempt: nat, max_attempts: nat) -> Seq<char> {
    "Task processing | Tries ("@ + dec_digits(attempt) + "/"@ + dec_digits(max_attempts) + ")"@
}

/// Builds the entry message, `Task processing | Tries (attempt/max)`.
pub fn processing_message(attempt: u32, max_attempts: u32) -> (r: String)
    ensures
        r@ == processing_message_spec(attempt as nat, max_attempts as nat),
{
    let mut r = "Task processing | Tries (".to_owned();
    r.append(u32_string(attempt).as_str());
    r.append("/");
    r.append(u32_string(max_attempts).as_str());
    r.append(")");
    proof {
        assert(r@ =~= processing_message_spec(attempt as nat, max_attempts as nat));
    }
    r
}

/// The per-batch progress message: `Segmenting | Batch k of n` when there is
/// more than one batch, plain `Segmenting` otherwise.
pub open spec fn segmenting_message_spec(batch_number: nat, total: nat) -> Seq<char> {
    if total > 1 {
        "Segmenting | Batch "@ + dec_digits(batch_number) + " of "@ + dec_digits(total)
    } else {
        "Segmenting"@
    }
}

/// Builds the per-batch progress message.
pub fn segmenting_message(batch_number: u32, total: u32) -> (r: String)
    ensures
        r@ == segmenting_message_spec(batch_number as nat, total as nat),
{
    if total > 1 {
        let mut r = "Segmenting | Batch ".to_owned();
        r.append(u32_string(batch_number).as_str());
        r.append(" of ");
        r.append(u32_string(total).as_str());
        proof {
            assert(r@ =~= segmenting_message_spec(batch_number as nat, total as nat));
        }
        r
    } else {
        "Segmenting".to_owned()
    }
}

/// The message a failed task is recorded with: the usage-limit wording when
/// the underlying error's text names that condition (case-insensitively), the
/// generic wording otherwise.
pub open spec fn failure_message_spec(error_text: Seq<char>) -> Seq<char> {
    if contains_ci(error_text, "usage limit exceeded"@) {
        "Task failed: Usage limit exceeded"@
    } else {
        "Task failed"@
    }
}

/// Classifies an error's text into the persisted failure message.
pub fn classify_failure(error_text: &str) -> (r: String)
    ensures
        r@ == failure_message_spec(error_text@),
{
    if contains_ci_str(error_text, "usage limit exceeded") {
        "Task failed: Usage limit exceeded".to_owned()
    } else {
        "Task failed".to_owned()
    }
}

/// The retry policy at a failure: with attempts left the row is not touched
/// (the queue redelivers and the whole pipeline runs again); on the final
/// attempt the task is marked `Failed`, with the classified message and a
/// finish time. Says whether the task was marked.
pub fn record_failure(task: &mut TaskRecord, attempt: u32, max_attempts: u32, error_text: &str) -> (
    marked: bool)
    requires
        old(task).status == Status::Processing,
    ensures
        marked == (attempt >= max_attempts),
        !marked ==> *final(task) == *old(task),
        marked ==> final(task).status == Status::Failed,
        marked ==> final(task).message@ == failure_message_spec(error_text@),
        marked ==> final(task).finished_at is Some,
        marked ==> task_wf(*final(task)),
        final(task).pdf_location == old(task).pdf_location,
        final(task).page_count == old(task).page_count,
        final(task).input_file_type == old(task).input_file_type,
        final(task).file_name == old(task).file_name,
{
    if attempt >= max_attempts {
        let message = classify_failure(error_text);
        let now = now_timestamp();
        log_task(task, Status::Failed, Some(message), Some(now));
        true
    } else {
        false
    }
}

} // verus!
