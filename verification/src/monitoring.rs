//! Names of the metrics the server records.

use vstd::prelude::*;

verus! {

/// The kind of work an image-operation permit is taken for.
#[derive(Clone, Copy, Debug, PartialEq, Eq, Structural)]
pub enum ImageOperation {
    Process,
    Info,
    Watermark,
}

impl ImageOperation {
    /// The metric label of the operation.
    pub fn as_str(self) -> (r: &'static str)
        ensures
            r@ == match self {
                ImageOperation::Process => "process"@,
                ImageOperation::Info => "info"@,
                ImageOperation::Watermark => "watermark"@,
            },
    {
        match self {
            ImageOperation::Process => "process",
            ImageOperation::Info => "info",
            ImageOperation::Watermark => "watermark",
        }
    }
}

/// The phase of an image operation that a timer measures.
#[derive(Clone, Copy, Debug, PartialEq, Eq, Structural)]
pub enum ImageOperationPhase {
    SemaphoreWait,
    BlockingQueue,
    Execution,
}

impl ImageOperationPhase {
    /// The histogram a phase's duration is recorded in.
    pub fn histogram_name(self) -> (r: &'static str)
        ensures
            r@ == match self {
                ImageOperationPhase::SemaphoreWait => "image_operation_semaphore_wait_duration_seconds"@,
                ImageOperationPhase::BlockingQueue => "image_operation_blocking_queue_duration_seconds"@,
                ImageOperationPhase::Execution => "image_operation_execution_duration_seconds"@,
            },
    {
        match self {
            ImageOperationPhase::SemaphoreWait => "image_operation_semaphore_wait_duration_seconds",
            ImageOperationPhase::BlockingQueue => "image_operation_blocking_queue_duration_seconds",
            ImageOperationPhase::Execution => "image_operation_execution_duration_seconds",
        }
    }
}

/// The counter a cache lookup is recorded in: hits and misses are counted
/// apart.
pub fn cache_counter_name(hit: bool) -> (r: &'static str)
    ensures
        r@ == if hit {
            "cache_hits_total"@
        } else {
            "cache_misses_total"@
        },
{
    if hit {
        "cache_hits_total"
    } else {
        "cache_misses_total"
    }
}

} // verus!
