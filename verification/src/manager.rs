//! The submission pipeline's shared state and its decisions: accumulating
//! proven deposits, sealing and queueing batches, and the retry-or-fail
//! rule applied when a submission attempt fails. The surrounding program
//! drives these decisions from its timers and performs all I/O — proof
//! requests, chain submissions, store updates — outside of them.

use vstd::prelude::*;

use crate::batch_manager::{batch_is, spec_is_stale, BatchManager};
use crate::error::OrchestratorError;
use crate::queue_manager::{lemma_total_deposits_nonneg, lemma_total_deposits_push,
    spec_total_deposits, QueueManager};
use crate::retry_engine::RetryEngine;
use crate::types::{Batch, Deposit, OrchestratorConfig, QueueStats};

verus! {

/// An open batch older than this many seconds is force-sealed by the
/// staleness sweep.
pub const STALE_BATCH_MAX_AGE_SECS: u64 = 120;

/// What became of a batch whose submission failed: re-enqueued for another
/// attempt, or failed permanently with every contained deposit reported.
pub enum FailureDisposition {
    Requeued { attempt: usize },
    Exhausted { failed_deposit_ids: Vec<String> },
}

pub struct SubmissionManager {
    pub batch_manager: BatchManager,
    pub queue_manager: QueueManager,
    pub retry_engine: RetryEngine,
    pub config: OrchestratorConfig,
    pub is_running: bool,
}

impl SubmissionManager {
    /// Deposits currently owned by the pipeline: queued plus accumulating.
    pub open spec fn tracked_deposits(self) -> int {
        spec_total_deposits(self.queue_manager.batches@)
            + self.batch_manager.open_deposits().len()
    }

    pub open spec fn wf(self) -> bool {
        &&& self.batch_manager.wf()
        &&& self.queue_manager.wf()
        &&& self.batch_manager.batch_size == self.config.batch_size
        &&& self.retry_engine.max_retries == self.config.max_retries
        &&& self.tracked_deposits() <= usize::MAX
    }

    /// Wires the pipeline up from its configuration. A sealing size of
    /// zero can never seal a batch, so it is rejected at startup.
    pub fn new(config: OrchestratorConfig) -> (r: Result<Self, OrchestratorError>)
        ensures
            config.batch_size >= 1 <==> r is Ok,
            r is Err ==> r->Err_0 is ConfigurationError,
            r is Ok ==> ({
                let m = r->Ok_0;
                &&& m.wf()
                &&& m.config == config
                &&& m.batch_manager.current_batch is None
                &&& m.queue_manager.batches@.len() == 0
                &&& m.retry_engine.max_retries == config.max_retries
                &&& !m.is_running
            }),
    {
        if config.batch_size < 1 {
            return Err(OrchestratorError::ConfigurationError(
                "batch_size must be at least 1".to_owned(),
            ));
        }
        let batch_manager = BatchManager::new(config.batch_size);
        let max_retries = config.max_retries as usize;
        Ok(SubmissionManager {
            batch_manager,
            queue_manager: QueueManager::new(),
            retry_engine: RetryEngine::new(max_retries),
            config,
            is_running: false,
        })
    }

    pub fn start(&mut self)
        requires
            old(self).wf(),
        ensures
            final(self).wf(),
            final(self).is_running,
            final(self).batch_manager == old(self).batch_manager,
            final(self).queue_manager == old(self).queue_manager,
            final(self).retry_engine == old(self).retry_engine,
            final(self).config == old(self).config,
    {
        self.is_running = true;
    }

    pub fn stop(&mut self)
        requires
            old(self).wf(),
        ensures
            final(self).wf(),
            !final(self).is_running,
            final(self).batch_manager == old(self).batch_manager,
            final(self).queue_manager == old(self).queue_manager,
            final(self).retry_engine == old(self).retry_engine,
            final(self).config == old(self).config,
    {
        self.is_running = false;
    }

    /// Hands one proven deposit to the accumulator at clock reading `now`;
    /// when the append seals the batch, the batch moves to the queue's
    /// tail in the same step.
    pub fn add_deposit(&mut self, deposit: Deposit, proof: String, now: u64)
        requires
            old(self).wf(),
            old(self).tracked_deposits() < usize::MAX,
        ensures
            final(self).wf(),
            final(self).retry_engine == old(self).retry_engine,
            final(self).config == old(self).config,
            final(self).is_running == old(self).is_running,
            final(self).batch_manager.batch_size == old(self).batch_manager.batch_size,
            ({
                let deposits = old(self).batch_manager.open_deposits().push(deposit);
                let proofs = old(self).batch_manager.open_proofs().push(proof);
                let created_at = old(self).batch_manager.open_created_at(now);
                let retry_count = old(self).batch_manager.open_retry_count();
                let q0 = old(self).queue_manager.batches@;
                let q1 = final(self).queue_manager.batches@;
                if deposits.len() == old(self).config.batch_size {
                    &&& final(self).batch_manager.current_batch is None
                    &&& q1.len() == q0.len() + 1
                    &&& q1.take(q0.len() as int) == q0
                    &&& batch_is(q1.last(), deposits, proofs, created_at, retry_count)
                } else {
                    &&& q1 == q0
                    &&& final(self).batch_manager.current_batch is Some
                    &&& batch_is(final(self).batch_manager.current_batch->Some_0, deposits, proofs, created_at, retry_count)
                }
            }),
    {
        proof {
            lemma_total_deposits_nonneg(self.queue_manager.batches@);
        }
        if let Some(batch) = self.batch_manager.add_to_batch(deposit, proof, now) {
            self.queue_manager.enqueue_batch(batch);
            proof {
                assert(self.queue_manager.batches@.take(old(self).queue_manager.batches@.len() as int)
                    =~= old(self).queue_manager.batches@);
                lemma_total_deposits_push(old(self).queue_manager.batches@, self.queue_manager.batches@.last());
            }
        }
    }

    /// The retry-or-fail rule, applied to a batch whose submission
    /// attempt just failed. While the batch's retry count is below
    /// `max_retries` it is re-enqueued at the queue's tail with the count
    /// raised by one; once the count has reached `max_retries` the batch
    /// is never enqueued again, and every contained deposit is reported
    /// failed. Exactly one of the two happens, wholly.
    pub fn handle_batch_submission_failure(&mut self, batch: Batch) -> (r: FailureDisposition)
        requires
            old(self).wf(),
            old(self).tracked_deposits() + batch.deposits@.len() <= usize::MAX,
        ensures
            final(self).wf(),
            final(self).retry_engine == old(self).retry_engine,
            final(self).config == old(self).config,
            final(self).is_running == old(self).is_running,
            final(self).batch_manager == old(self).batch_manager,
            if batch.retry_count < old(self).retry_engine.max_retries {
                let q0 = old(self).queue_manager.batches@;
                let q1 = final(self).queue_manager.batches@;
                &&& (r matches FailureDisposition::Requeued { attempt } && attempt == batch.retry_count + 1)
                &&& q1.len() == q0.len() + 1
                &&& q1.take(q0.len() as int) == q0
                &&& batch_is(q1.last(), batch.deposits@, batch.proofs@, batch.created_at, (batch.retry_count + 1) as usize)
            } else {
                &&& *final(self) == *old(self)
                &&& (r matches FailureDisposition::Exhausted { failed_deposit_ids }
                    && failed_deposit_ids@.map_values(|s: String| s@) == batch.spec_deposit_ids()
                    && failed_deposit_ids@.len() == batch.deposits@.len())
            },
    {
        proof {
            lemma_total_deposits_nonneg(self.queue_manager.batches@);
        }
        if self.retry_engine.should_retry(batch.retry_count) {
            let mut retry_batch = batch;
            retry_batch.retry_count = retry_batch.retry_count + 1;
            let ghost q0 = self.queue_manager.batches@;
            let attempt = retry_batch.retry_count;
            self.queue_manager.enqueue_batch(retry_batch);
            proof {
                assert(self.queue_manager.batches@.take(q0.len() as int) =~= q0);
                lemma_total_deposits_push(q0, self.queue_manager.batches@.last());
            }
            FailureDisposition::Requeued { attempt }
        } else {
            let failed_deposit_ids = batch.deposit_ids();
            FailureDisposition::Exhausted { failed_deposit_ids }
        }
    }

    /// The staleness sweep: seals an open batch that has waited longer
    /// than `STALE_BATCH_MAX_AGE_SECS` and queues it, so partially filled
    /// batches are never held indefinitely.
    pub fn finalize_stale_batch(&mut self, now: u64)
        requires
            old(self).wf(),
        ensures
            final(self).wf(),
            final(self).retry_engine == old(self).retry_engine,
            final(self).config == old(self).config,
            final(self).is_running == old(self).is_running,
            final(self).batch_manager.batch_size == old(self).batch_manager.batch_size,
            match old(self).batch_manager.current_batch {
                Some(b) => {
                    if spec_is_stale(b, STALE_BATCH_MAX_AGE_SECS, now) {
                        &&& final(self).batch_manager.current_batch is None
                        &&& final(self).queue_manager.batches@ == old(self).queue_manager.batches@.push(b)
                    } else {
                        *final(self) == *old(self)
                    }
                },
                None => *final(self) == *old(self),
            },
    {
        proof {
            lemma_total_deposits_nonneg(self.queue_manager.batches@);
        }
        if let Some(batch) = self.batch_manager.finalize_if_stale(STALE_BATCH_MAX_AGE_SECS, now) {
            self.queue_manager.enqueue_batch(batch);
            proof {
                lemma_total_deposits_push(old(self).queue_manager.batches@, self.queue_manager.batches@.last());
            }
        }
    }

    /// Seals the open batch on demand and queues it, or does nothing when
    /// no batch is open.
    pub fn finalize_current_batch(&mut self)
        requires
            old(self).wf(),
        ensures
            final(self).wf(),
            final(self).retry_engine == old(self).retry_engine,
            final(self).config == old(self).config,
            final(self).is_running == old(self).is_running,
            final(self).batch_manager.batch_size == old(self).batch_manager.batch_size,
            match old(self).batch_manager.current_batch {
                Some(b) => final(self).batch_manager.current_batch is None
                    && final(self).queue_manager.batches@ == old(self).queue_manager.batches@.push(b),
                None => *final(self) == *old(self),
            },
    {
        proof {
            lemma_total_deposits_nonneg(self.queue_manager.batches@);
        }
        if let Some(batch) = self.batch_manager.finalize_batch() {
            self.queue_manager.enqueue_batch(batch);
            proof {
                lemma_total_deposits_push(old(self).queue_manager.batches@, self.queue_manager.batches@.last());
            }
        }
    }

    /// Removes the queue's head for a submission attempt.
    pub fn dequeue_batch(&mut self) -> (r: Option<Batch>)
        requires
            old(self).wf(),
        ensures
            final(self).wf(),
            final(self).retry_engine == old(self).retry_engine,
            final(self).config == old(self).config,
            final(self).is_running == old(self).is_running,
            final(self).batch_manager == old(self).batch_manager,
            if old(self).queue_manager.batches@.len() == 0 {
                r is None && *final(self) == *old(self)
            } else {
                r == Some(old(self).queue_manager.batches@[0])
                    && final(self).queue_manager.batches@ == old(self).queue_manager.batches@.drop_first()
            },
    {
        proof {
            if self.queue_manager.batches@.len() > 0 {
                lemma_total_deposits_nonneg(self.queue_manager.batches@.drop_first());
            }
        }
        self.queue_manager.dequeue_batch()
    }

    /// The queue's aggregate state, counted in deposits.
    pub fn get_queue_stats(&self) -> (r: QueueStats)
        requires
            self.wf(),
        ensures
            r.pending == spec_total_deposits(self.queue_manager.batches@),
            r.total == spec_total_deposits(self.queue_manager.batches@),
            r.processing == 0,
            r.completed == 0,
    {
        self.queue_manager.get_queue_stats()
    }
}

/// FIFO order is kept across a retry: a batch re-enqueued for another
/// attempt joins the queue's tail, so every batch that was already queued
/// when the retry happened leaves the queue before it, in their original
/// relative order.
pub proof fn lemma_fifo_retry(q: Seq<Batch>, retried: Batch)
    ensures
        q.push(retried).len() == q.len() + 1,
        forall|k: int| 0 <= k < q.len() ==> q.push(retried)[k] == q[k],
        q.push(retried)[q.len() as int] == retried,
{
}

/// The retry count a batch carries after a number of failed submission
/// attempts, iterating the rule of `handle_batch_submission_failure`:
/// while the count is below `max_retries` a failure re-enqueues the batch
/// with the count raised by one; once it has reached `max_retries` the
/// batch is exhausted and the count no longer moves.
pub open spec fn spec_count_after_failures(retry_count: nat, failures: nat, max_retries: nat) -> nat
    decreases failures,
{
    if failures == 0 {
        retry_count
    } else if retry_count < max_retries {
        spec_count_after_failures(retry_count + 1, (failures - 1) as nat, max_retries)
    } else {
        retry_count
    }
}

/// Iterating failures never carries a count past `max_retries`.
pub proof fn lemma_count_after_failures(retry_count: nat, failures: nat, max_retries: nat)
    requires
        retry_count <= max_retries,
    ensures
        spec_count_after_failures(retry_count, failures, max_retries) == if retry_count + failures
            <= max_retries {
            (retry_count + failures) as int
        } else {
            max_retries as int
        },
    decreases failures,
{
    if failures > 0 && retry_count < max_retries {
        lemma_count_after_failures(retry_count + 1, (failures - 1) as nat, max_retries);
    }
}

/// Retry exhaustion: a batch sealed with a retry count of zero is
/// re-enqueued by exactly its first `max_retries` failed attempts — each
/// raising the count by one — and its count then stands at `max_retries`,
/// where `handle_batch_submission_failure` reports every contained
/// deposit failed and leaves the queue untouched: the batch is never
/// re-enqueued a `max_retries + 1`'th time.
pub proof fn lemma_retry_exhaustion(failures: nat, max_retries: nat)
    ensures
        failures <= max_retries ==> spec_count_after_failures(0, failures, max_retries)
            == failures,
        failures > max_retries ==> spec_count_after_failures(0, failures, max_retries)
            == max_retries,
        spec_count_after_failures(0, failures, max_retries) <= max_retries,
{
    lemma_count_after_failures(0, failures, max_retries);
}

} // verus!
