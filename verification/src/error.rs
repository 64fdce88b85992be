//! The pipeline's error taxonomy. Causes raised by outside services reach
//! the library as plain strings; the variants keep the distinction between
//! recoverable and terminal failures.

use vstd::prelude::*;

verus! {

#[derive(Clone, Debug)]
pub enum OrchestratorError {
    NetworkError(String),
    SerializationError(String),
    DatabaseError(String),
    SolanaError(String),
    MetricsError(String),
    ConfigurationError(String),
    InsufficientSignatures { current: usize, required: usize },
    MaxRetriesExceeded { attempts: usize, message: String },
    SystemUnhealthy { reason: String },
    BatchProcessingFailed { reason: String },
}

} // verus!
