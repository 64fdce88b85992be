//! Core of a deposit-relay bridge: proven deposits are accumulated into
//! bounded batches, queued in FIFO order, submitted with bounded retries,
//! and accepted on the target ledger by a verification state machine that
//! recomputes each event's commitment and consumes a one-time nullifier.

pub mod batch_manager;
pub mod bytes;
pub mod codec;
pub mod error;
pub mod hash;
pub mod health_monitor;
pub mod manager;
pub mod program;
pub mod proof_orchestrator;
pub mod queue_manager;
pub mod retry_engine;
pub mod state;
pub mod types;
pub mod verify;
pub mod zk_verifier;

pub use batch_manager::BatchManager;
pub use error::OrchestratorError;
pub use health_monitor::HealthMonitor;
pub use manager::SubmissionManager;
pub use queue_manager::QueueManager;
pub use retry_engine::RetryEngine;
pub use types::{Batch, Deposit, OrchestratorConfig, QueueStats, SystemHealth};
