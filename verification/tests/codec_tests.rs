use zk_bridge::codec::serialize_proof_data;
use zk_bridge::types::Deposit;

fn deposit() -> Deposit {
    Deposit {
        deposit_id: "dep-1".to_string(),
        ton_tx_hash: "abcd".to_string(),
        sender_address: "sender".to_string(),
        recipient_solana: "recv".to_string(),
        amount: "1500".to_string(),
        fee_est: "3".to_string(),
        nonce: "7".to_string(),
        created_at: 42,
    }
}

#[test]
fn proof_data_joins_the_fields_with_semicolons() {
    let data = serialize_proof_data(&deposit(), "PROOF", "VKEY");
    assert_eq!(data, b"PROOF;VKEY;dep-1;abcd;recv;1500".to_vec());
}

#[test]
fn proof_data_keeps_empty_fields_apart() {
    let d = Deposit {
        deposit_id: String::new(),
        ton_tx_hash: String::new(),
        sender_address: String::new(),
        recipient_solana: String::new(),
        amount: String::new(),
        fee_est: String::new(),
        nonce: String::new(),
        created_at: 0,
    };
    let data = serialize_proof_data(&d, "", "");
    assert_eq!(data, b";;;;;".to_vec());
}

#[test]
fn proof_data_length_matches_its_parts() {
    let d = deposit();
    let data = serialize_proof_data(&d, "PROOF", "VKEY");
    let field_bytes = "PROOF".len()
        + "VKEY".len()
        + d.deposit_id.len()
        + d.ton_tx_hash.len()
        + d.recipient_solana.len()
        + d.amount.len();
    assert_eq!(data.len(), field_bytes + 5);
    assert_eq!(data.iter().filter(|b| **b == b';').count(), 5);
}
