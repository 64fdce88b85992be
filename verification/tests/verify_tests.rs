use zk_bridge::program::BridgeLedger;
use zk_bridge::state::EventPublicInputs;
use zk_bridge::verify::verify_mock;
use zk_bridge::zk_verifier::{ZKProof, ZKVerifier, ZkError, MAX_AMOUNT, MAX_FEE_BPS};

const ROOT: [u8; 32] = [7u8; 32];
const ADMIN: [u8; 32] = [1u8; 32];
const RELAYER: [u8; 32] = [2u8; 32];

fn sample_proof() -> ZKProof {
    ZKProof { a: [3u8; 64], b: [4u8; 128], c: [5u8; 64] }
}

fn ledger() -> BridgeLedger {
    BridgeLedger::init_state(1, ROOT, RELAYER, ADMIN)
}

fn valid_inputs() -> EventPublicInputs {
    let token_id = [9u8; 32];
    let recipient = [10u8; 32];
    let domain = [11u8; 32];
    let amount = 5_000u64;
    let fee_bps = 100u16;
    let vk_version = 1u32;
    let event_id =
        ZKVerifier::hash_event_components(&token_id, amount, &recipient, fee_bps, vk_version, &domain);
    EventPublicInputs {
        domain,
        anchor_root: ROOT,
        event_id,
        token_id,
        amount_in_ton: amount,
        recipient_solana: recipient,
        fee_bps,
        vk_version,
        ton_tx_hash: [12u8; 32],
        ton_sender: [13u8; 32],
        nullifier: [14u8; 32],
    }
}

#[test]
fn valid_event_is_accepted_and_recorded() {
    let mut l = ledger();
    let inputs = valid_inputs();
    let emitted = l.verify_ton_event(&sample_proof(), &inputs).expect("valid event must verify");
    assert_eq!(emitted.event_id, inputs.event_id);
    assert_eq!(emitted.recipient, inputs.recipient_solana);
    assert_eq!(emitted.amount, inputs.amount_in_ton);
    assert_eq!(emitted.ton_tx_hash, inputs.ton_tx_hash);
    assert_eq!(emitted.ton_sender, inputs.ton_sender);

    assert_eq!(l.nullifiers.len(), 1);
    assert!(l.nullifiers[0].consumed);
    assert_eq!(l.nullifiers[0].nullifier, inputs.nullifier);
    assert_eq!(l.nullifiers[0].ton_tx_hash, inputs.ton_tx_hash);

    assert_eq!(l.events.len(), 1);
    assert!(l.events[0].consumed);
    assert_eq!(l.events[0].event_id, inputs.event_id);
    assert_eq!(l.events[0].amount, inputs.amount_in_ton);
}

#[test]
fn double_spend_is_rejected_and_leaves_state_unchanged() {
    let mut l = ledger();
    let inputs = valid_inputs();
    l.verify_ton_event(&sample_proof(), &inputs).expect("first call must succeed");
    let after_first = l.clone();

    let second = l.verify_ton_event(&sample_proof(), &inputs);
    assert_eq!(second.err(), Some(ZkError::EventAlreadyConsumed));
    assert_eq!(l, after_first, "the second call must change nothing");
}

#[test]
fn zero_amount_is_rejected_before_any_state_mutation() {
    let mut l = ledger();
    let mut inputs = valid_inputs();
    inputs.amount_in_ton = 0;
    let before = l.clone();
    let r = l.verify_ton_event(&sample_proof(), &inputs);
    assert_eq!(r.err(), Some(ZkError::InvalidAmount));
    assert_eq!(l, before);
    assert!(l.nullifiers.is_empty(), "no nullifier record may be created");
    assert!(l.events.is_empty());
}

#[test]
fn amount_above_the_maximum_is_rejected() {
    let mut l = ledger();
    let mut inputs = valid_inputs();
    inputs.amount_in_ton = MAX_AMOUNT + 1;
    assert_eq!(l.verify_ton_event(&sample_proof(), &inputs).err(), Some(ZkError::InvalidAmount));
}

#[test]
fn fee_above_the_maximum_is_rejected() {
    let mut l = ledger();
    let mut inputs = valid_inputs();
    inputs.fee_bps = MAX_FEE_BPS + 1;
    assert_eq!(l.verify_ton_event(&sample_proof(), &inputs).err(), Some(ZkError::InvalidFee));
}

#[test]
fn wrong_anchor_root_is_rejected() {
    let mut l = ledger();
    let mut inputs = valid_inputs();
    inputs.anchor_root = [99u8; 32];
    assert_eq!(l.verify_ton_event(&sample_proof(), &inputs).err(), Some(ZkError::InvalidAnchorRoot));
}

#[test]
fn mutating_any_bound_field_without_the_event_id_is_rejected() {
    // the event id commits to every bound field; changing one field
    // while keeping the old id must fail an authenticity check
    let base = valid_inputs();

    let mut changed_token = base.clone();
    changed_token.token_id = [42u8; 32];
    let mut changed_amount = base.clone();
    changed_amount.amount_in_ton += 1;
    let mut changed_recipient = base.clone();
    changed_recipient.recipient_solana = [43u8; 32];
    let mut changed_fee = base.clone();
    changed_fee.fee_bps += 1;
    let mut changed_vk = base.clone();
    changed_vk.vk_version += 1;
    let mut changed_domain = base.clone();
    changed_domain.domain = [44u8; 32];

    for mutated in [
        changed_token,
        changed_amount,
        changed_recipient,
        changed_fee,
        changed_vk,
        changed_domain,
    ] {
        let mut l = ledger();
        let err = l
            .verify_ton_event(&sample_proof(), &mutated)
            .expect_err("a mutated field must be rejected");
        assert!(
            matches!(err, ZkError::InvalidEventId | ZkError::InvalidAmount | ZkError::InvalidFee),
            "rejection must be an authenticity error, got {:?}",
            err
        );
        assert!(l.nullifiers.is_empty());
    }
}

#[test]
fn a_forged_event_id_is_rejected() {
    let mut l = ledger();
    let mut inputs = valid_inputs();
    inputs.event_id = [1u8; 32];
    assert_eq!(l.verify_ton_event(&sample_proof(), &inputs).err(), Some(ZkError::InvalidEventId));
}

#[test]
fn degenerate_proof_is_rejected() {
    let mut l = ledger();
    let inputs = valid_inputs();
    let zero_a = ZKProof { a: [0u8; 64], b: [4u8; 128], c: [5u8; 64] };
    assert_eq!(l.verify_ton_event(&zero_a, &inputs).err(), Some(ZkError::BadProof));
    let zero_b = ZKProof { a: [3u8; 64], b: [0u8; 128], c: [5u8; 64] };
    assert_eq!(l.verify_ton_event(&zero_b, &inputs).err(), Some(ZkError::BadProof));
    let zero_c = ZKProof { a: [3u8; 64], b: [4u8; 128], c: [0u8; 64] };
    assert_eq!(l.verify_ton_event(&zero_c, &inputs).err(), Some(ZkError::BadProof));
}

#[test]
fn zero_nullifier_and_zero_tx_hash_are_rejected() {
    let mut l = ledger();
    let mut no_nullifier = valid_inputs();
    no_nullifier.nullifier = [0u8; 32];
    assert_eq!(l.verify_ton_event(&sample_proof(), &no_nullifier).err(), Some(ZkError::InvalidNullifier));

    let mut no_hash = valid_inputs();
    no_hash.ton_tx_hash = [0u8; 32];
    assert_eq!(l.verify_ton_event(&sample_proof(), &no_hash).err(), Some(ZkError::InvalidTonTxHash));
}

#[test]
fn two_events_with_distinct_nullifiers_both_verify() {
    let mut l = ledger();
    let first = valid_inputs();
    l.verify_ton_event(&sample_proof(), &first).expect("first event");

    let mut second = valid_inputs();
    second.nullifier = [77u8; 32];
    // distinct content gives a distinct recomputed id
    second.token_id = [78u8; 32];
    second.event_id = ZKVerifier::hash_event_components(
        &second.token_id,
        second.amount_in_ton,
        &second.recipient_solana,
        second.fee_bps,
        second.vk_version,
        &second.domain,
    );
    l.verify_ton_event(&sample_proof(), &second).expect("second event");
    assert_eq!(l.nullifiers.len(), 2);
    assert_eq!(l.events.len(), 2);
}

#[test]
fn update_ton_root_is_restricted_to_admin_and_relayer() {
    let mut l = ledger();
    let new_root = [21u8; 32];
    assert!(l.update_ton_root(&ADMIN, new_root).is_ok());
    assert_eq!(l.state.ton_state_root, new_root);

    let newer_root = [22u8; 32];
    assert!(l.update_ton_root(&RELAYER, newer_root).is_ok());
    assert_eq!(l.state.ton_state_root, newer_root);

    let outsider = [99u8; 32];
    let before = l.clone();
    assert_eq!(l.update_ton_root(&outsider, [23u8; 32]).err(), Some(ZkError::UnauthorizedRelayer));
    assert_eq!(l, before);
}

#[test]
fn proof_bound_to_the_anchored_root_fails_after_a_root_update() {
    let mut l = ledger();
    let inputs = valid_inputs();
    l.update_ton_root(&ADMIN, [55u8; 32]).unwrap();
    assert_eq!(l.verify_ton_event(&sample_proof(), &inputs).err(), Some(ZkError::InvalidAnchorRoot));
}

#[test]
fn verify_update_requires_a_strictly_larger_slot() {
    let mut l = ledger();
    let good = [0xAAu8; 32];
    assert!(l.verify_update(10, &good).is_ok());
    assert_eq!(l.state.last_verified_slot, 10);

    assert_eq!(l.verify_update(10, &good).err(), Some(ZkError::SlotGoesBackwards));
    assert_eq!(l.verify_update(9, &good).err(), Some(ZkError::SlotGoesBackwards));
    assert_eq!(l.state.last_verified_slot, 10);

    assert!(l.verify_update(11, &good).is_ok());
    assert_eq!(l.state.last_verified_slot, 11);
}

#[test]
fn verify_mock_rejects_a_malformed_placeholder_proof() {
    let mut bad = [0xAAu8; 32];
    bad[17] = 0xAB;
    assert_eq!(verify_mock(&bad, 1, 2).err(), Some(ZkError::BadProof));
    assert!(verify_mock(&[0xAAu8; 32], 1, 2).is_ok());
}

#[test]
fn event_id_depends_on_every_bound_field() {
    // the commitment is a real digest: it differs from its inputs and
    // moves whenever any bound field moves
    let token_id = [9u8; 32];
    let recipient = [10u8; 32];
    let domain = [11u8; 32];
    let base = ZKVerifier::hash_event_components(&token_id, 5_000, &recipient, 100, 1, &domain);
    assert_ne!(base, token_id);
    assert_ne!(base, recipient);
    assert_ne!(base, domain);
    assert_eq!(
        base,
        ZKVerifier::hash_event_components(&token_id, 5_000, &recipient, 100, 1, &domain),
        "the commitment is deterministic"
    );
    assert_ne!(base, ZKVerifier::hash_event_components(&[8u8; 32], 5_000, &recipient, 100, 1, &domain));
    assert_ne!(base, ZKVerifier::hash_event_components(&token_id, 5_001, &recipient, 100, 1, &domain));
    assert_ne!(base, ZKVerifier::hash_event_components(&token_id, 5_000, &[12u8; 32], 100, 1, &domain));
    assert_ne!(base, ZKVerifier::hash_event_components(&token_id, 5_000, &recipient, 101, 1, &domain));
    assert_ne!(base, ZKVerifier::hash_event_components(&token_id, 5_000, &recipient, 100, 2, &domain));
    assert_ne!(base, ZKVerifier::hash_event_components(&token_id, 5_000, &recipient, 100, 1, &[12u8; 32]));
}

#[test]
fn nullifier_derivation_is_the_provers_responsibility() {
    // The verifier checks only that the nullifier is nonzero and unconsumed;
    // it does not require nullifier == H("NULLIFIER" || tx_hash || sender),
    // so a caller-supplied unrelated nullifier passes. Deriving and binding
    // the nullifier is left to the prover.
    let mut l = ledger();
    let inputs = valid_inputs();
    let derived = ZKVerifier::generate_nullifier(&inputs.ton_tx_hash, &inputs.ton_sender);
    assert_ne!(inputs.nullifier, derived, "the supplied nullifier is unrelated to the derivation");
    assert!(l.verify_ton_event(&sample_proof(), &inputs).is_ok());
}

#[test]
fn generated_nullifier_is_a_digest_of_hash_and_sender() {
    let tx = [12u8; 32];
    let sender = [13u8; 32];
    let n = ZKVerifier::generate_nullifier(&tx, &sender);
    assert_ne!(n, tx);
    assert_ne!(n, sender);
    assert_eq!(n, ZKVerifier::generate_nullifier(&tx, &sender));
    assert_ne!(n, ZKVerifier::generate_nullifier(&sender, &tx));
}
