use zk_bridge::queue_manager::QueueManager;
use zk_bridge::types::{Batch, Deposit};

fn deposit(id: &str) -> Deposit {
    Deposit {
        deposit_id: id.to_string(),
        ton_tx_hash: "h".to_string(),
        sender_address: "s".to_string(),
        recipient_solana: "r".to_string(),
        amount: "1".to_string(),
        fee_est: "0".to_string(),
        nonce: "0".to_string(),
        created_at: 0,
    }
}

fn batch(ids: &[&str], retry_count: usize) -> Batch {
    Batch {
        deposits: ids.iter().map(|id| deposit(id)).collect(),
        proofs: ids.iter().map(|id| format!("proof-{}", id)).collect(),
        created_at: 0,
        retry_count,
    }
}

#[test]
fn dequeue_order_equals_enqueue_order() {
    let mut q = QueueManager::new();
    q.enqueue_batch(batch(&["a"], 0));
    q.enqueue_batch(batch(&["b"], 0));
    q.enqueue_batch(batch(&["c"], 0));

    assert_eq!(q.dequeue_batch().unwrap().deposits[0].deposit_id, "a");
    assert_eq!(q.dequeue_batch().unwrap().deposits[0].deposit_id, "b");
    assert_eq!(q.dequeue_batch().unwrap().deposits[0].deposit_id, "c");
    assert!(q.dequeue_batch().is_none());
}

#[test]
fn dequeue_on_empty_queue_returns_none() {
    let mut q = QueueManager::new();
    assert!(q.dequeue_batch().is_none());
}

#[test]
fn stats_count_deposits_not_batches() {
    let mut q = QueueManager::new();
    q.enqueue_batch(batch(&["a1", "a2", "a3"], 0));
    q.enqueue_batch(batch(&["b1"], 0));
    let stats = q.get_queue_stats();
    assert_eq!(stats.pending, 4);
    assert_eq!(stats.total, 4);
    assert_eq!(stats.processing, 0);
    assert_eq!(stats.completed, 0);
}

#[test]
fn stats_of_empty_queue_are_zero() {
    let q = QueueManager::new();
    let stats = q.get_queue_stats();
    assert_eq!(stats.pending, 0);
    assert_eq!(stats.total, 0);
}

#[test]
fn retried_batch_rejoins_at_the_tail() {
    // a failed head batch re-enters behind everything queued before the retry
    let mut q = QueueManager::new();
    q.enqueue_batch(batch(&["first"], 0));
    q.enqueue_batch(batch(&["second"], 0));

    let mut failed = q.dequeue_batch().unwrap();
    assert_eq!(failed.deposits[0].deposit_id, "first");
    failed.retry_count += 1;
    q.enqueue_batch(failed);

    assert_eq!(q.dequeue_batch().unwrap().deposits[0].deposit_id, "second");
    let retried = q.dequeue_batch().unwrap();
    assert_eq!(retried.deposits[0].deposit_id, "first");
    assert_eq!(retried.retry_count, 1);
    assert!(q.dequeue_batch().is_none());
}
