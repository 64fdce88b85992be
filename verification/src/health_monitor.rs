//! System health reporting: a fixed all-healthy report and the rule that
//! the system is healthy exactly when every component is.

use vstd::prelude::*;

use crate::error::OrchestratorError;
use crate::types::SystemHealth;

verus! {

#[derive(Clone)]
pub struct HealthMonitor;

impl HealthMonitor {
    pub fn new(_health_check_interval: u64) -> (r: Self) {
        Self
    }

    /// Reports every component healthy.
    pub fn get_system_health(&self) -> (r: Result<SystemHealth, OrchestratorError>)
        ensures
            r is Ok,
            ({
                let h = r->Ok_0;
                h.ton_rpc && h.solana_rpc && h.database && h.validators && h.queue_size
                    && h.last_batch_time
            }),
    {
        Ok(SystemHealth {
            ton_rpc: true,
            solana_rpc: true,
            database: true,
            validators: true,
            queue_size: true,
            last_batch_time: true,
        })
    }

    /// The system is healthy exactly when every component is.
    pub fn is_system_healthy(&self, health: &SystemHealth) -> (r: bool)
        ensures
            r == (health.ton_rpc && health.solana_rpc && health.database && health.validators
                && health.queue_size && health.last_batch_time),
    {
        health.ton_rpc && health.solana_rpc && health.database && health.validators
            && health.queue_size && health.last_batch_time
    }
}

} // verus!
