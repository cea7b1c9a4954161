//! The asynchronous dispatcher: a batch request is captured into an owned
//! snapshot, queued to a small fixed-size worker pool, evaluated there in
//! parallel mode, and the result — or a generic failure marker — is sent back
//! over the channel captured at submission time. Submission never blocks the
//! caller; a worker never awaits acknowledgement of its delivery.
use vstd::prelude::*;
use crate::batch::{batch_spec, evaluate_batch_parallel};
use crate::input::{can_normalize, canonical_spec, Input, input_fits, normalize};
use crate::recurrence::iter_count;

verus! {

/// The dispatch pool's worker count in this design.
pub const DISPATCH_WORKERS: usize = 2;

/// What a worker delivers to the job's caller: the ordered results, or a
/// single generic failure marker. The detail of a failure is deliberately not
/// propagated.
pub enum Reply {
    Values(Vec<i64>),
    Failed,
}

/// An owned, self-contained snapshot of one batch request, taken at
/// submission time: the input, the evaluation parameters, and the channel on
/// which the caller expects the result. It references no caller-owned
/// transient state and is consumed exactly once by a pool worker.
pub struct BatchJob {
    pub input: Input,
    pub iterations: i64,
    pub modulus: i64,
    pub multiplier: i64,
    pub reply_to: std::sync::mpsc::Sender<Reply>,
}

/// The jobs a worker can evaluate: a nonzero modulus and an input whose
/// canonical sequence can be materialized. Everything else is delivered as a
/// failure marker.
pub open spec fn job_valid(job: BatchJob) -> bool {
    job.modulus != 0 && can_normalize(job.input)
}

/// The reply a job denotes: its batch result when the job is valid, the
/// failure marker when it is not.
pub open spec fn reply_spec(job: BatchJob, r: Reply) -> bool {
    match r {
        Reply::Values(v) => job_valid(job) && v@ == batch_spec(
            canonical_spec(job.input),
            iter_count(job.iterations),
            job.modulus,
            job.multiplier,
        ),
        Reply::Failed => !job_valid(job),
    }
}

/// Evaluates one job as a pool worker does: normalize, then run the batch in
/// parallel mode; any invalid job becomes the generic failure marker instead
/// of an error with detail.
pub fn run_job(job: &BatchJob) -> (r: Reply)
    ensures
        reply_spec(*job, r),
{
    if job.modulus != 0 && input_fits(&job.input) {
        let seeds = normalize(&job.input);
        Reply::Values(
            evaluate_batch_parallel(&seeds, job.iterations, job.modulus, job.multiplier),
        )
    } else {
        Reply::Failed
    }
}

#[verifier::external_type_specification]
#[verifier::external_body]
#[verifier::reject_recursive_types(T)]
pub struct ExSender<T>(std::sync::mpsc::Sender<T>);

#[verifier::external_type_specification]
#[verifier::external_body]
pub struct ExPool(scoped_pool::Pool);

/// The worker count a dispatch pool was created with.
pub uninterp spec fn pool_size(pool: scoped_pool::Pool) -> nat;

/// Relies on `std::sync::mpsc::Sender::send`: delivers the reply to the
/// receiving end if it still listens. Fire-and-forget: a hung-up receiver is
/// ignored, and nothing is awaited.
#[verifier::external_body]
fn send_reply(target: &std::sync::mpsc::Sender<Reply>, r: Reply) {
    let _ = target.send(r);
}

/// Relies on `scoped_pool::Pool::new`: creates a pool with exactly `size`
/// worker threads.
#[verifier::external_body]
fn pool_new(size: usize) -> (pool: scoped_pool::Pool)
    ensures
        pool_size(pool) == size,
{
    scoped_pool::Pool::new(size)
}

/// Relies on `scoped_pool::Pool::spawn`: runs the task on one of the pool's
/// workers without waiting for it; when every worker is busy the task waits
/// its turn in the pool's queue.
#[verifier::external_body]
fn pool_spawn(pool: &scoped_pool::Pool, job: BatchJob) {
    pool.spawn(move || crate::dispatch::deliver(job));
}

/// The whole lifetime of one job on a worker: evaluate the snapshot, then
/// send the caller what came out — the results, or the failure marker.
pub fn deliver(job: BatchJob) {
    let r = run_job(&job);
    send_reply(&job.reply_to, r);
}

/// A fixed-size worker pool that owns the asynchronous job lifecycle: one
/// worker per job from queue to delivery, a FIFO queue as the only
/// back-pressure.
pub struct Dispatcher {
    pool: scoped_pool::Pool,
}

impl Dispatcher {
    /// The worker count this dispatcher was created with.
    pub closed spec fn workers(self) -> nat {
        pool_size(self.pool)
    }

    /// Creates the dispatch pool with the given number of workers.
    pub fn new(size: usize) -> (d: Dispatcher)
        ensures
            d.workers() == size,
    {
        Dispatcher { pool: pool_new(size) }
    }

    /// Submits one job and returns immediately; the reply arrives later on
    /// the channel captured in the job. A queued job cannot be canceled.
    pub fn submit(&self, job: BatchJob) {
        pool_spawn(&self.pool, job);
    }
}

} // verus!
