//! Plain data carried through the submission pipeline: deposits, batches,
//! queue statistics, configuration, and the records exchanged with the
//! surrounding services.

use vstd::prelude::*;

verus! {

/// Aggregate view of the submission queue, counted in deposits, not batches.
#[derive(Clone, Debug)]
pub struct QueueStats {
    pub pending: usize,
    pub processing: usize,
    pub completed: usize,
    pub total: usize,
}

/// Static configuration of the pipeline.
#[derive(Clone, Debug)]
pub struct OrchestratorConfig {
    pub batch_size: usize,
    pub max_retries: u32,
    pub health_check_interval: u64,
    pub gas_update_interval: u64,
    pub validator_count: usize,
    pub validators: Vec<String>,
    pub solana_rpc_url: String,
    pub solana_program_id: String,
    pub solana_bridge_account: String,
    pub verification_key: String,
}

/// One deposit observed on the source ledger, immutable once created.
#[derive(Clone, Debug)]
pub struct Deposit {
    pub deposit_id: String,
    pub ton_tx_hash: String,
    pub sender_address: String,
    pub recipient_solana: String,
    pub amount: String,
    pub fee_est: String,
    pub nonce: String,
    pub created_at: u64,
}

/// Health flags of the surrounding services.
#[derive(Clone, Debug)]
pub struct SystemHealth {
    pub ton_rpc: bool,
    pub solana_rpc: bool,
    pub database: bool,
    pub validators: bool,
    pub queue_size: bool,
    pub last_batch_time: bool,
}

/// A group of deposits and their proofs, index-aligned and equal in length.
/// `created_at` is the accumulator's clock reading (seconds) when the first
/// deposit entered; `retry_count` counts submission attempts already failed.
#[derive(Clone, Debug)]
pub struct Batch {
    pub deposits: Vec<Deposit>,
    pub proofs: Vec<String>,
    pub created_at: u64,
    pub retry_count: usize,
}

impl Batch {
    /// A batch is well formed when its proofs are index-aligned with its
    /// deposits and it holds at least one deposit.
    pub open spec fn wf(self) -> bool {
        &&& self.deposits@.len() == self.proofs@.len()
        &&& self.deposits@.len() >= 1
    }

    /// The deposit ids contained in this batch, in batch order.
    pub open spec fn spec_deposit_ids(self) -> Seq<Seq<char>> {
        self.deposits@.map_values(|d: Deposit| d.deposit_id@)
    }

    /// Collects the ids of every deposit in the batch, in order.
    pub fn deposit_ids(&self) -> (r: Vec<String>)
        ensures
            r@.map_values(|s: String| s@) == self.spec_deposit_ids(),
            r@.len() == self.deposits@.len(),
    {
        let mut ids: Vec<String> = Vec::new();
        let n = self.deposits.len();
        for i in 0..n
            invariant
                n == self.deposits@.len(),
                ids@.len() == i,
                forall|j: int| 0 <= j < i ==> ids@[j]@ == self.deposits@[j].deposit_id@,
        {
            ids.push(self.deposits[i].deposit_id.clone());
        }
        proof {
            assert(ids@.map_values(|s: String| s@) =~= self.spec_deposit_ids());
        }
        ids
    }
}

/// A deposit's row as the persistent store keeps it.
#[derive(Clone, Debug)]
pub struct DepositRecord {
    pub deposit_id: String,
    pub ton_tx_hash: String,
    pub sender_address: String,
    pub recipient_solana: String,
    pub amount: String,
    pub status: String,
    pub error_message: Option<String>,
    pub created_at: i64,
    pub updated_at: i64,
}

/// A deposit as the ingestion boundary receives it.
#[derive(Clone, Debug)]
pub struct DepositRequest {
    pub deposit_id: String,
    pub ton_tx_hash: String,
    pub sender_address: String,
    pub recipient_solana: String,
    pub amount: String,
    pub fee_est: String,
    pub nonce: String,
    pub created_at: u64,
}

impl DepositRequest {
    /// The deposit a request describes, field for field.
    pub fn into_deposit(self) -> (r: Deposit)
        ensures
            r.deposit_id == self.deposit_id,
            r.ton_tx_hash == self.ton_tx_hash,
            r.sender_address == self.sender_address,
            r.recipient_solana == self.recipient_solana,
            r.amount == self.amount,
            r.fee_est == self.fee_est,
            r.nonce == self.nonce,
            r.created_at == self.created_at,
    {
        Deposit {
            deposit_id: self.deposit_id,
            ton_tx_hash: self.ton_tx_hash,
            sender_address: self.sender_address,
            recipient_solana: self.recipient_solana,
            amount: self.amount,
            fee_est: self.fee_est,
            nonce: self.nonce,
            created_at: self.created_at,
        }
    }
}

/// Queue statistics as reported over the ingestion boundary.
#[derive(Clone, Debug)]
pub struct QueueStatsResponse {
    pub pending: usize,
    pub total: usize,
    pub completed: usize,
}

impl QueueStatsResponse {
    /// The reported view of the queue's aggregate state.
    pub fn from_stats(stats: &QueueStats) -> (r: Self)
        ensures
            r.pending == stats.pending,
            r.total == stats.total,
            r.completed == stats.completed,
    {
        QueueStatsResponse {
            pending: stats.pending,
            total: stats.total,
            completed: stats.completed,
        }
    }
}

} // verus!
