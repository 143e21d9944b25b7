//! Verified core of a document-segmentation worker.
//!
//! One queued task names an input document; the worker normalizes it to a
//! PDF, splits it into page batches, sends each batch to an external layout
//! model, offsets and concatenates the per-batch segments into one globally
//! page-numbered list, uploads the result, and hands the task to the next
//! stage. This crate holds the decisions and data transformations of that
//! pipeline, each with a proved contract; the surrounding I/O (object store,
//! task database, model service, queue) stays outside and drives the state
//! machine in `pipeline`.

pub mod adapters;
pub mod aggregate;
pub mod batching;
pub mod error;
pub mod filetype;
pub mod normalize;
pub mod payload;
pub mod pipeline;
pub mod segment;
pub mod task;
pub mod text;
