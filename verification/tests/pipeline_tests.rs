use zk_bridge::manager::{FailureDisposition, SubmissionManager};
use zk_bridge::retry_engine::RetryEngine;
use zk_bridge::health_monitor::HealthMonitor;
use zk_bridge::proof_orchestrator::select_circuit_service_url;
use zk_bridge::types::{Deposit, DepositRequest, OrchestratorConfig, QueueStatsResponse, SystemHealth};
use zk_bridge::OrchestratorError;

fn config(batch_size: usize, max_retries: u32) -> OrchestratorConfig {
    OrchestratorConfig {
        batch_size,
        max_retries,
        health_check_interval: 30_000,
        gas_update_interval: 60_000,
        validator_count: 1,
        validators: vec!["http://circuit-service:8080".to_string()],
        solana_rpc_url: "https://api.devnet.solana.com".to_string(),
        solana_program_id: "program".to_string(),
        solana_bridge_account: "bridge".to_string(),
        verification_key: "vk".to_string(),
    }
}

fn deposit(id: &str) -> Deposit {
    Deposit {
        deposit_id: id.to_string(),
        ton_tx_hash: "h".to_string(),
        sender_address: "s".to_string(),
        recipient_solana: "r".to_string(),
        amount: "1".to_string(),
        fee_est: "0".to_string(),
        nonce: "0".to_string(),
        created_at: 0,
    }
}

#[test]
fn new_rejects_a_zero_batch_size() {
    let err = SubmissionManager::new(config(0, 3)).err().expect("must be refused");
    assert!(matches!(err, OrchestratorError::ConfigurationError(_)));
}

#[test]
fn new_accepts_a_positive_batch_size() {
    let m = SubmissionManager::new(config(5, 3)).expect("must be accepted");
    assert!(!m.is_running);
    assert_eq!(m.retry_engine.max_retries, 3);
    assert!(m.batch_manager.current_batch.is_none());
}

#[test]
fn start_and_stop_toggle_the_running_flag() {
    let mut m = SubmissionManager::new(config(2, 3)).unwrap();
    m.start();
    assert!(m.is_running);
    m.stop();
    assert!(!m.is_running);
}

#[test]
fn add_deposit_queues_a_batch_when_it_fills() {
    let mut m = SubmissionManager::new(config(2, 3)).unwrap();
    m.add_deposit(deposit("d1"), "p1".to_string(), 100);
    assert_eq!(m.get_queue_stats().pending, 0);
    m.add_deposit(deposit("d2"), "p2".to_string(), 101);
    let stats = m.get_queue_stats();
    assert_eq!(stats.pending, 2);
    assert_eq!(stats.total, 2);
    assert!(m.batch_manager.current_batch.is_none());
}

#[test]
fn retry_exhaustion_fails_every_deposit_and_never_requeues_again() {
    // max_retries = 2: a batch is re-enqueued exactly twice, then exhausted
    let mut m = SubmissionManager::new(config(2, 2)).unwrap();
    m.add_deposit(deposit("d1"), "p1".to_string(), 0);
    m.add_deposit(deposit("d2"), "p2".to_string(), 0);

    let mut requeues = 0;
    loop {
        let batch = m.dequeue_batch().expect("the failing batch must stay queued until exhausted");
        match m.handle_batch_submission_failure(batch) {
            FailureDisposition::Requeued { attempt } => {
                requeues += 1;
                assert_eq!(attempt, requeues);
                assert!(requeues <= 2, "a batch must never be re-enqueued a third time");
            }
            FailureDisposition::Exhausted { failed_deposit_ids } => {
                assert_eq!(requeues, 2);
                assert_eq!(failed_deposit_ids, vec!["d1".to_string(), "d2".to_string()]);
                break;
            }
        }
    }
    // nothing left: the exhausted batch was not re-enqueued
    assert!(m.dequeue_batch().is_none());
    assert_eq!(m.get_queue_stats().pending, 0);
}

#[test]
fn zero_max_retries_exhausts_on_the_first_failure() {
    let mut m = SubmissionManager::new(config(1, 0)).unwrap();
    m.add_deposit(deposit("d1"), "p1".to_string(), 0);
    let batch = m.dequeue_batch().unwrap();
    match m.handle_batch_submission_failure(batch) {
        FailureDisposition::Exhausted { failed_deposit_ids } => {
            assert_eq!(failed_deposit_ids, vec!["d1".to_string()]);
        }
        FailureDisposition::Requeued { .. } => panic!("no retry is permitted"),
    }
}

#[test]
fn retried_batch_is_ordered_behind_earlier_batches() {
    // FIFO with one retry: the retried batch leaves after every batch
    // that was queued before its retry
    let mut m = SubmissionManager::new(config(1, 5)).unwrap();
    m.add_deposit(deposit("a"), "pa".to_string(), 0);
    m.add_deposit(deposit("b"), "pb".to_string(), 0);

    let failing = m.dequeue_batch().unwrap();
    assert_eq!(failing.deposits[0].deposit_id, "a");
    m.add_deposit(deposit("c"), "pc".to_string(), 0);
    match m.handle_batch_submission_failure(failing) {
        FailureDisposition::Requeued { attempt } => assert_eq!(attempt, 1),
        FailureDisposition::Exhausted { .. } => panic!("retries remain"),
    }

    assert_eq!(m.dequeue_batch().unwrap().deposits[0].deposit_id, "b");
    assert_eq!(m.dequeue_batch().unwrap().deposits[0].deposit_id, "c");
    let retried = m.dequeue_batch().unwrap();
    assert_eq!(retried.deposits[0].deposit_id, "a");
    assert_eq!(retried.retry_count, 1);
}

#[test]
fn stale_sweep_queues_an_old_partial_batch() {
    let mut m = SubmissionManager::new(config(10, 3)).unwrap();
    m.add_deposit(deposit("d1"), "p1".to_string(), 1_000);
    m.finalize_stale_batch(1_060);
    assert_eq!(m.get_queue_stats().pending, 0, "a fresh batch must not be swept");
    m.finalize_stale_batch(1_121);
    assert_eq!(m.get_queue_stats().pending, 1);
    assert!(m.batch_manager.current_batch.is_none());
}

#[test]
fn manual_flush_queues_the_open_batch() {
    let mut m = SubmissionManager::new(config(10, 3)).unwrap();
    m.finalize_current_batch();
    assert_eq!(m.get_queue_stats().pending, 0);
    m.add_deposit(deposit("d1"), "p1".to_string(), 0);
    m.finalize_current_batch();
    let sealed = m.dequeue_batch().expect("flushed batch must be queued");
    assert_eq!(sealed.deposits.len(), 1);
    assert_eq!(sealed.deposits[0].deposit_id, "d1");
}

#[test]
fn should_retry_is_strictly_below_the_maximum() {
    let engine = RetryEngine::new(3);
    assert!(engine.should_retry(0));
    assert!(engine.should_retry(2));
    assert!(!engine.should_retry(3));
    assert!(!engine.should_retry(4));
    let none = RetryEngine::new(0);
    assert!(!none.should_retry(0));
}

#[test]
fn system_health_is_the_conjunction_of_its_components() {
    let monitor = HealthMonitor::new(30_000);
    let health = monitor.get_system_health().expect("health report is always produced");
    assert!(monitor.is_system_healthy(&health));

    let degraded = SystemHealth {
        ton_rpc: true,
        solana_rpc: false,
        database: true,
        validators: true,
        queue_size: true,
        last_batch_time: true,
    };
    assert!(!monitor.is_system_healthy(&degraded));
}

#[test]
fn a_deposit_request_becomes_the_deposit_it_describes() {
    let request = DepositRequest {
        deposit_id: "d9".to_string(),
        ton_tx_hash: "hash".to_string(),
        sender_address: "from".to_string(),
        recipient_solana: "to".to_string(),
        amount: "250".to_string(),
        fee_est: "2".to_string(),
        nonce: "5".to_string(),
        created_at: 77,
    };
    let d = request.into_deposit();
    assert_eq!(d.deposit_id, "d9");
    assert_eq!(d.ton_tx_hash, "hash");
    assert_eq!(d.sender_address, "from");
    assert_eq!(d.recipient_solana, "to");
    assert_eq!(d.amount, "250");
    assert_eq!(d.fee_est, "2");
    assert_eq!(d.nonce, "5");
    assert_eq!(d.created_at, 77);
}

#[test]
fn reported_stats_mirror_the_queue_stats() {
    let mut m = SubmissionManager::new(config(1, 3)).unwrap();
    m.add_deposit(deposit("d1"), "p1".to_string(), 0);
    let reported = QueueStatsResponse::from_stats(&m.get_queue_stats());
    assert_eq!(reported.pending, 1);
    assert_eq!(reported.total, 1);
    assert_eq!(reported.completed, 0);
}

#[test]
fn prover_endpoint_is_the_first_validator_or_the_default() {
    let validators = vec!["http://one:1".to_string(), "http://two:2".to_string()];
    assert_eq!(select_circuit_service_url(&validators), "http://one:1");
    assert_eq!(select_circuit_service_url(&Vec::new()), "http://localhost:8080");
}
