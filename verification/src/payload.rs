//! The queue payloads: the task description this stage receives, the
//! delivery envelope around it, and the message handed to the next stage on
//! success. The downstream message carries the original task description
//! unchanged.

use vstd::prelude::*;

use crate::adapters::fresh_item_id;
use crate::error::PipelineError;

verus! {

/// One task, as the enqueuing producer described it. Read-only here.
#[derive(Clone, Debug)]
pub struct ExtractionPayload {
    pub task_id: String,
    pub user_id: String,
    /// Source blob path, extension-bearing.
    pub input_location: String,
    /// Destination of the final segment list.
    pub output_location: String,
    /// Pages per split; absent means one batch holding the whole document.
    pub batch_size: Option<u32>,
    /// Which layout-analysis variant to call.
    pub model: String,
}

/// The delivery envelope around one received task. Owned by the queue
/// transport; only the attempt counters are read here.
pub struct QueuePayload {
    pub payload: ExtractionPayload,
    /// 1-based count of this delivery.
    pub attempt: u32,
    pub max_attempts: u32,
    pub item_id: String,
    pub queue_name: String,
}

/// A message to be enqueued for the next stage.
#[derive(Debug)]
pub struct ProducePayload {
    pub queue_name: String,
    pub publish_channel: Option<String>,
    pub payload: ExtractionPayload,
    pub max_attempts: Option<u32>,
    pub item_id: String,
}

/// Shapes the downstream handoff: the original payload, unchanged, addressed
/// to the configured next-stage queue under a fresh item id. With no queue
/// configured the handoff fails as a publish error.
pub fn make_ocr_payload(
    extraction_payload: ExtractionPayload,
    ocr_queue_name: Option<String>,
) -> (r: Result<ProducePayload, PipelineError>)
    ensures
        r is Ok <==> ocr_queue_name is Some,
        r matches Ok(p) ==> {
            &&& p.payload == extraction_payload
            &&& Some(p.queue_name) == ocr_queue_name
            &&& p.publish_channel is None
            &&& p.max_attempts is None
            &&& p.item_id@.len() == 36
        },
        r matches Err(e) ==> e == PipelineError::PublishFailed,
{
    match ocr_queue_name {
        None => Err(PipelineError::PublishFailed),
        Some(queue_name) => Ok(
            ProducePayload {
                queue_name,
                publish_channel: None,
                payload: extraction_payload,
                max_attempts: None,
                item_id: fresh_item_id(),
            },
        ),
    }
}

} // verus!
