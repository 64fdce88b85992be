//! Batch accumulator: collects (deposit, proof) pairs into at most one open
//! batch, sealing it when it reaches the configured size, when it grows
//! stale, or on demand. The caller supplies the clock reading `now`
//! (seconds); reading the clock itself is the surrounding program's work.

use vstd::prelude::*;

use crate::types::{Batch, Deposit};

verus! {

pub struct BatchManager {
    pub batch_size: usize,
    pub current_batch: Option<Batch>,
}

/// `b` holds exactly the given deposits and proofs, creation time and
/// retry count.
pub open spec fn batch_is(b: Batch, deposits: Seq<Deposit>, proofs: Seq<String>, created_at: u64, retry_count: usize) -> bool {
    &&& b.deposits@ == deposits
    &&& b.proofs@ == proofs
    &&& b.created_at == created_at
    &&& b.retry_count == retry_count
}

/// An open batch is stale at `now` when it has waited longer than `max_age`
/// seconds since its creation.
pub open spec fn spec_is_stale(b: Batch, max_age: u64, now: u64) -> bool {
    now > b.created_at + max_age
}

impl BatchManager {
    /// The deposits of the open batch, empty when none is open.
    pub open spec fn open_deposits(self) -> Seq<Deposit> {
        match self.current_batch {
            Some(b) => b.deposits@,
            None => Seq::empty(),
        }
    }

    /// The proofs of the open batch, empty when none is open.
    pub open spec fn open_proofs(self) -> Seq<String> {
        match self.current_batch {
            Some(b) => b.proofs@,
            None => Seq::empty(),
        }
    }

    /// The creation time the batch grown at `now` carries: the open batch's,
    /// or `now` itself when the append opens a fresh batch.
    pub open spec fn open_created_at(self, now: u64) -> u64 {
        match self.current_batch {
            Some(b) => b.created_at,
            None => now,
        }
    }

    /// The retry count of the open batch; a fresh batch starts at zero.
    pub open spec fn open_retry_count(self) -> usize {
        match self.current_batch {
            Some(b) => b.retry_count,
            None => 0usize,
        }
    }

    /// At most one batch is open; an open batch is index-aligned, never
    /// empty, and strictly below the sealing size (reaching it seals).
    pub open spec fn wf(self) -> bool {
        &&& self.batch_size >= 1
        &&& match self.current_batch {
            Some(b) => b.wf() && b.deposits@.len() < self.batch_size,
            None => true,
        }
    }

    pub fn new(batch_size: usize) -> (r: Self)
        requires
            batch_size >= 1,
        ensures
            r.wf(),
            r.batch_size == batch_size,
            r.current_batch is None,
    {
        Self { batch_size, current_batch: None }
    }

    /// Appends one proven deposit to the open batch, opening one at time
    /// `now` if none is open. Returns the batch, sealed, exactly when the
    /// append makes it reach `batch_size`; the open slot is then cleared.
    pub fn add_to_batch(&mut self, deposit: Deposit, proof: String, now: u64) -> (r: Option<Batch>)
        requires
            old(self).wf(),
        ensures
            final(self).wf(),
            final(self).batch_size == old(self).batch_size,
            ({
                let deposits = old(self).open_deposits().push(deposit);
                let proofs = old(self).open_proofs().push(proof);
                let created_at = old(self).open_created_at(now);
                let retry_count = old(self).open_retry_count();
                if deposits.len() == old(self).batch_size {
                    &&& r is Some
                    &&& batch_is(r->Some_0, deposits, proofs, created_at, retry_count)
                    &&& final(self).current_batch is None
                } else {
                    &&& r is None
                    &&& final(self).current_batch is Some
                    &&& batch_is(final(self).current_batch->Some_0, deposits, proofs, created_at, retry_count)
                }
            }),
    {
        let taken = self.current_batch.take();
        let mut batch = match taken {
            Some(b) => b,
            None => Batch {
                deposits: Vec::new(),
                proofs: Vec::new(),
                created_at: now,
                retry_count: 0,
            },
        };
        batch.deposits.push(deposit);
        batch.proofs.push(proof);
        if batch.deposits.len() >= self.batch_size {
            Some(batch)
        } else {
            self.current_batch = Some(batch);
            None
        }
    }

    /// Unconditionally seals and returns the open batch, or `None`.
    pub fn finalize_batch(&mut self) -> (r: Option<Batch>)
        requires
            old(self).wf(),
        ensures
            final(self).wf(),
            final(self).batch_size == old(self).batch_size,
            r == old(self).current_batch,
            final(self).current_batch is None,
            r is Some ==> r->Some_0.wf() && r->Some_0.deposits@.len() <= old(self).batch_size,
    {
        self.current_batch.take()
    }

    /// Seals and returns the open batch exactly when it is stale at `now`;
    /// otherwise leaves the accumulator untouched.
    pub fn finalize_if_stale(&mut self, max_age: u64, now: u64) -> (r: Option<Batch>)
        requires
            old(self).wf(),
        ensures
            final(self).wf(),
            final(self).batch_size == old(self).batch_size,
            match old(self).current_batch {
                Some(b) => {
                    if spec_is_stale(b, max_age, now) {
                        r == Some(b) && final(self).current_batch is None
                    } else {
                        r is None && *final(self) == *old(self)
                    }
                },
                None => r is None && *final(self) == *old(self),
            },
            r is Some ==> r->Some_0.wf() && r->Some_0.deposits@.len() <= old(self).batch_size,
    {
        if let Some(batch) = &self.current_batch {
            // now - created_at > max_age, phrased without overflow
            if now > max_age && now - max_age > batch.created_at {
                return self.current_batch.take();
            }
        }
        None
    }
}

} // verus!
