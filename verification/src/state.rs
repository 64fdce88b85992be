//! Ledger-resident state of the verification program: the anchor state, the
//! stored verifying key, and the per-event and per-nullifier records.
//! Identities and 32-byte commitments are carried as plain byte arrays.

use vstd::prelude::*;

verus! {

/// Anchor state: who may update it, the last verified slot, and the source
/// ledger's most recently anchored state root.
#[derive(Clone, Debug, PartialEq, Eq)]
pub struct LcState {
    pub admin: [u8; 32],
    pub last_verified_slot: u64,
    pub vk_id: u32,
    pub ton_state_root: [u8; 32],
    pub relayer: [u8; 32],
}

/// A stored verifying key, looked up by id.
#[derive(Clone, Debug, PartialEq, Eq)]
pub struct VerifyingKey {
    pub vk_id: u32,
    pub data: Vec<u8>,
}

/// One record per verified event, keyed by `event_id`; terminal once created.
#[derive(Clone, Debug, PartialEq, Eq)]
pub struct EventState {
    pub consumed: bool,
    pub event_id: [u8; 32],
    pub recipient: [u8; 32],
    pub amount: u64,
    pub ton_tx_hash: [u8; 32],
    pub ton_sender: [u8; 32],
}

/// The double-spend guard, keyed by the nullifier value: once `consumed`
/// is set it never resets.
#[derive(Clone, Debug, PartialEq, Eq)]
pub struct NullifierState {
    pub consumed: bool,
    pub nullifier: [u8; 32],
    pub ton_tx_hash: [u8; 32],
}

/// Public inputs bound by an event proof.
#[derive(Clone, Debug, PartialEq, Eq)]
pub struct EventPublicInputs {
    pub domain: [u8; 32],
    pub anchor_root: [u8; 32],
    pub event_id: [u8; 32],
    pub token_id: [u8; 32],
    pub amount_in_ton: u64,
    pub recipient_solana: [u8; 32],
    pub fee_bps: u16,
    pub vk_version: u32,
    pub ton_tx_hash: [u8; 32],
    pub ton_sender: [u8; 32],
    pub nullifier: [u8; 32],
}

} // verus!
