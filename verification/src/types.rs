use vstd::prelude::*;

verus! {

/// The order in which queued jobs are taken out of a hook's queue.
#[derive(Debug, Clone, Copy, PartialEq, Eq, Structural)]
pub enum QueueType {
    /// First in, first out: the oldest queued job runs first, and a full
    /// queue refuses new jobs.
    Fifo,
    /// Last in, first out: the newest queued job runs first, and a full
    /// queue drops its oldest job.
    Lifo,
}

} // verus!
