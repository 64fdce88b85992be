//! Proof-side checks of the verification protocol: recomputation of the
//! event commitment, derivation of the nullifier, validation of the public
//! inputs against the anchored root, and the placeholder proof-sanity rule
//! that stands in for the pairing check.

use vstd::prelude::*;

use crate::bytes::{append_bytes32, append_u16_le, append_u32_le, append_u64_le, bytes32_eq,
    bytes_all_zero, spec_u16_le, spec_u32_le, spec_u64_le};
use crate::hash::{sha256_32, spec_sha256};
use crate::state::EventPublicInputs;

verus! {

/// Largest amount a single event may carry.
pub const MAX_AMOUNT: u64 = 1000000000000;

/// Largest fee, in basis points (10%).
pub const MAX_FEE_BPS: u16 = 1000;

/// A Groth16-shaped proof: two G1 points and one G2 point.
#[derive(Clone, Debug)]
pub struct ZKProof {
    pub a: [u8; 64],
    pub b: [u8; 128],
    pub c: [u8; 64],
}

/// Every rejection the verification protocol can answer with.
#[derive(Clone, Copy, Debug, PartialEq, Eq, Structural)]
pub enum ZkError {
    BadProof,
    SlotGoesBackwards,
    InvalidAnchorRoot,
    EventAlreadyConsumed,
    InvalidAmount,
    InvalidFee,
    InvalidEventId,
    InvalidNullifier,
    InvalidTonTxHash,
    UnauthorizedRelayer,
}

/// Whether every byte of `s` is zero.
pub open spec fn spec_all_zero(s: Seq<u8>) -> bool {
    forall|j: int| 0 <= j < s.len() ==> s[j] == 0
}

/// The domain-separation label in front of every event preimage.
pub open spec fn spec_event_tag() -> Seq<u8> {
    // "TON_EVENT"
    seq![84u8, 79u8, 78u8, 95u8, 69u8, 86u8, 69u8, 78u8, 84u8]
}

/// The domain-separation label in front of every nullifier preimage.
pub open spec fn spec_nullifier_tag() -> Seq<u8> {
    // "NULLIFIER"
    seq![78u8, 85u8, 76u8, 76u8, 73u8, 70u8, 73u8, 69u8, 82u8]
}

/// The bytes whose digest is an event's id: the label and every bound
/// field, each at a fixed width.
pub open spec fn spec_event_preimage(token_id: Seq<u8>, amount_in_ton: u64, recipient_solana: Seq<u8>, fee_bps: u16, vk_version: u32, domain: Seq<u8>) -> Seq<u8> {
    spec_event_tag() + token_id + spec_u64_le(amount_in_ton) + recipient_solana
        + spec_u16_le(fee_bps) + spec_u32_le(vk_version) + domain
}

/// The event id an honest prover must carry: the digest of the preimage.
pub open spec fn spec_event_id(token_id: Seq<u8>, amount_in_ton: u64, recipient_solana: Seq<u8>, fee_bps: u16, vk_version: u32, domain: Seq<u8>) -> Seq<u8> {
    spec_sha256(spec_event_preimage(token_id, amount_in_ton, recipient_solana, fee_bps, vk_version, domain))
}

/// The event id recomputed from the public inputs of `i`.
pub open spec fn spec_event_id_of(i: EventPublicInputs) -> Seq<u8> {
    spec_event_id(i.token_id@, i.amount_in_ton, i.recipient_solana@, i.fee_bps, i.vk_version, i.domain@)
}

/// The nullifier derived from a source transaction and its sender.
pub open spec fn spec_nullifier(ton_tx_hash: Seq<u8>, ton_sender: Seq<u8>) -> Seq<u8> {
    spec_sha256(spec_nullifier_tag() + ton_tx_hash + ton_sender)
}

/// The first public-input check that `i` fails against the anchored
/// `root`, in checking order, or `None` when all pass.
pub open spec fn spec_validate_error(i: EventPublicInputs, root: Seq<u8>) -> Option<ZkError> {
    if i.anchor_root@ != root {
        Some(ZkError::InvalidAnchorRoot)
    } else if i.amount_in_ton == 0 || i.amount_in_ton > MAX_AMOUNT {
        Some(ZkError::InvalidAmount)
    } else if i.fee_bps > MAX_FEE_BPS {
        Some(ZkError::InvalidFee)
    } else if i.event_id@ != spec_event_id_of(i) {
        Some(ZkError::InvalidEventId)
    } else {
        None
    }
}

/// The first proof-sanity check that fails, or `None`: the proof's group
/// elements must be non-degenerate and the nullifier and source transaction
/// hash nonzero.
pub open spec fn spec_proof_sanity_error(proof: ZKProof, i: EventPublicInputs) -> Option<ZkError> {
    if spec_all_zero(proof.a@) || spec_all_zero(proof.b@) || spec_all_zero(proof.c@) {
        Some(ZkError::BadProof)
    } else if spec_all_zero(i.nullifier@) {
        Some(ZkError::InvalidNullifier)
    } else if spec_all_zero(i.ton_tx_hash@) {
        Some(ZkError::InvalidTonTxHash)
    } else {
        None
    }
}

/// The first check of the whole proof-verification stage that fails, or
/// `None`: public inputs first, then proof sanity.
pub open spec fn spec_verify_proof_error(proof: ZKProof, i: EventPublicInputs, root: Seq<u8>) -> Option<ZkError> {
    match spec_validate_error(i, root) {
        Some(e) => Some(e),
        None => spec_proof_sanity_error(proof, i),
    }
}

/// The little-endian digits of a `u64` determine it.
pub proof fn lemma_u64_le_injective(x: u64, y: u64)
    requires
        spec_u64_le(x) == spec_u64_le(y),
    ensures
        x == y,
{
    assert(spec_u64_le(x)[0] == spec_u64_le(y)[0]);
    assert(spec_u64_le(x)[1] == spec_u64_le(y)[1]);
    assert(spec_u64_le(x)[2] == spec_u64_le(y)[2]);
    assert(spec_u64_le(x)[3] == spec_u64_le(y)[3]);
    assert(spec_u64_le(x)[4] == spec_u64_le(y)[4]);
    assert(spec_u64_le(x)[5] == spec_u64_le(y)[5]);
    assert(spec_u64_le(x)[6] == spec_u64_le(y)[6]);
    assert(spec_u64_le(x)[7] == spec_u64_le(y)[7]);
    assert(x == y) by (bit_vector)
        requires
            x % 256 == y % 256,
            x / 256 % 256 == y / 256 % 256,
            x / 65536 % 256 == y / 65536 % 256,
            x / 16777216 % 256 == y / 16777216 % 256,
            x / 4294967296 % 256 == y / 4294967296 % 256,
            x / 1099511627776 % 256 == y / 1099511627776 % 256,
            x / 281474976710656 % 256 == y / 281474976710656 % 256,
            x / 72057594037927936 % 256 == y / 72057594037927936 % 256,
    ;
}

/// The little-endian digits of a `u32` determine it.
pub proof fn lemma_u32_le_injective(x: u32, y: u32)
    requires
        spec_u32_le(x) == spec_u32_le(y),
    ensures
        x == y,
{
    assert(spec_u32_le(x)[0] == spec_u32_le(y)[0]);
    assert(spec_u32_le(x)[1] == spec_u32_le(y)[1]);
    assert(spec_u32_le(x)[2] == spec_u32_le(y)[2]);
    assert(spec_u32_le(x)[3] == spec_u32_le(y)[3]);
    assert(x == y) by (bit_vector)
        requires
            x % 256 == y % 256,
            x / 256 % 256 == y / 256 % 256,
            x / 65536 % 256 == y / 65536 % 256,
            x / 16777216 % 256 == y / 16777216 % 256,
    ;
}

/// The little-endian digits of a `u16` determine it.
pub proof fn lemma_u16_le_injective(x: u16, y: u16)
    requires
        spec_u16_le(x) == spec_u16_le(y),
    ensures
        x == y,
{
    assert(spec_u16_le(x)[0] == spec_u16_le(y)[0]);
    assert(spec_u16_le(x)[1] == spec_u16_le(y)[1]);
    assert(x == y) by (bit_vector)
        requires
            x % 256 == y % 256,
            x / 256 % 256 == y / 256 % 256,
    ;
}

/// The event preimage construction is injective: two equal preimages over
/// 32-byte token, recipient and domain fields bind every field. Each field
/// sits at a fixed offset, so no two distinct input tuples share a
/// preimage.
pub proof fn lemma_event_preimage_injective(t1: Seq<u8>, a1: u64, r1: Seq<u8>, f1: u16, v1: u32, d1: Seq<u8>, t2: Seq<u8>, a2: u64, r2: Seq<u8>, f2: u16, v2: u32, d2: Seq<u8>)
    requires
        t1.len() == 32,
        r1.len() == 32,
        d1.len() == 32,
        t2.len() == 32,
        r2.len() == 32,
        d2.len() == 32,
        spec_event_preimage(t1, a1, r1, f1, v1, d1) == spec_event_preimage(t2, a2, r2, f2, v2, d2),
    ensures
        t1 == t2,
        a1 == a2,
        r1 == r2,
        f1 == f2,
        v1 == v2,
        d1 == d2,
{
    let p1 = spec_event_preimage(t1, a1, r1, f1, v1, d1);
    let p2 = spec_event_preimage(t2, a2, r2, f2, v2, d2);
    assert(p1.len() == 119);
    assert(t1 =~= p1.subrange(9, 41));
    assert(t2 =~= p2.subrange(9, 41));
    assert(spec_u64_le(a1) =~= p1.subrange(41, 49));
    assert(spec_u64_le(a2) =~= p2.subrange(41, 49));
    lemma_u64_le_injective(a1, a2);
    assert(r1 =~= p1.subrange(49, 81));
    assert(r2 =~= p2.subrange(49, 81));
    assert(spec_u16_le(f1) =~= p1.subrange(81, 83));
    assert(spec_u16_le(f2) =~= p2.subrange(81, 83));
    lemma_u16_le_injective(f1, f2);
    assert(spec_u32_le(v1) =~= p1.subrange(83, 87));
    assert(spec_u32_le(v2) =~= p2.subrange(83, 87));
    lemma_u32_le_injective(v1, v2);
    assert(d1 =~= p1.subrange(87, 119));
    assert(d2 =~= p2.subrange(87, 119));
}

/// Mutating any bound field of valid public inputs without recomputing
/// `event_id` is rejected by the public-input checks with an authenticity
/// error. The digest-inequality hypothesis is exactly collision freedom of
/// SHA-256 on this pair of preimages; `lemma_event_preimage_injective`
/// shows the two preimages are indeed distinct.
pub proof fn lemma_event_id_binding(i1: EventPublicInputs, i2: EventPublicInputs, root: Seq<u8>)
    requires
        spec_validate_error(i1, root) is None,
        i2.event_id@ == i1.event_id@,
        i2.anchor_root@ == i1.anchor_root@,
        i2.token_id@ != i1.token_id@ || i2.amount_in_ton != i1.amount_in_ton
            || i2.recipient_solana@ != i1.recipient_solana@ || i2.fee_bps != i1.fee_bps
            || i2.vk_version != i1.vk_version || i2.domain@ != i1.domain@,
        spec_sha256(spec_event_preimage(i2.token_id@, i2.amount_in_ton, i2.recipient_solana@, i2.fee_bps, i2.vk_version, i2.domain@))
            != spec_sha256(spec_event_preimage(i1.token_id@, i1.amount_in_ton, i1.recipient_solana@, i1.fee_bps, i1.vk_version, i1.domain@)),
    ensures
        spec_validate_error(i2, root) is Some,
        spec_validate_error(i2, root) == Some(ZkError::InvalidAmount)
            || spec_validate_error(i2, root) == Some(ZkError::InvalidFee)
            || spec_validate_error(i2, root) == Some(ZkError::InvalidEventId),
{
    assert(i1.event_id@ == spec_event_id_of(i1));
    if i2.amount_in_ton == 0 || i2.amount_in_ton > MAX_AMOUNT {
        assert(spec_validate_error(i2, root) == Some(ZkError::InvalidAmount));
    } else if i2.fee_bps > MAX_FEE_BPS {
        assert(spec_validate_error(i2, root) == Some(ZkError::InvalidFee));
    } else {
        assert(i2.event_id@ != spec_event_id_of(i2));
        assert(spec_validate_error(i2, root) == Some(ZkError::InvalidEventId));
    }
}

pub struct ZKVerifier;

impl ZKVerifier {
    /// Recomputes the event commitment over the bound fields.
    pub fn hash_event_components(token_id: &[u8; 32], amount_in_ton: u64, recipient_solana: &[u8; 32], fee_bps: u16, vk_version: u32, domain: &[u8; 32]) -> (r: [u8; 32])
        ensures
            r@ == spec_event_id(token_id@, amount_in_ton, recipient_solana@, fee_bps, vk_version, domain@),
    {
        let mut preimage: Vec<u8> = Vec::new();
        preimage.push(84u8);
        preimage.push(79u8);
        preimage.push(78u8);
        preimage.push(95u8);
        preimage.push(69u8);
        preimage.push(86u8);
        preimage.push(69u8);
        preimage.push(78u8);
        preimage.push(84u8);
        proof {
            assert(preimage@ =~= spec_event_tag());
        }
        append_bytes32(&mut preimage, token_id);
        append_u64_le(&mut preimage, amount_in_ton);
        append_bytes32(&mut preimage, recipient_solana);
        append_u16_le(&mut preimage, fee_bps);
        append_u32_le(&mut preimage, vk_version);
        append_bytes32(&mut preimage, domain);
        proof {
            assert(preimage@ =~= spec_event_preimage(token_id@, amount_in_ton, recipient_solana@, fee_bps, vk_version, domain@));
        }
        sha256_32(&preimage)
    }

    /// Derives the one-time nullifier of a source event from its
    /// transaction hash and sender.
    pub fn generate_nullifier(ton_tx_hash: &[u8; 32], ton_sender: &[u8; 32]) -> (r: [u8; 32])
        ensures
            r@ == spec_nullifier(ton_tx_hash@, ton_sender@),
    {
        let mut preimage: Vec<u8> = Vec::new();
        preimage.push(78u8);
        preimage.push(85u8);
        preimage.push(76u8);
        preimage.push(76u8);
        preimage.push(73u8);
        preimage.push(70u8);
        preimage.push(73u8);
        preimage.push(69u8);
        preimage.push(82u8);
        proof {
            assert(preimage@ =~= spec_nullifier_tag());
        }
        append_bytes32(&mut preimage, ton_tx_hash);
        append_bytes32(&mut preimage, ton_sender);
        sha256_32(&preimage)
    }

    /// Checks the public inputs against the anchored root, in order:
    /// root binding, amount bounds, fee bound, event-id recomputation.
    pub fn validate_public_inputs(public_inputs: &EventPublicInputs, current_ton_root: &[u8; 32]) -> (r: Result<(), ZkError>)
        ensures
            r == match spec_validate_error(*public_inputs, current_ton_root@) {
                Some(e) => Err::<(), ZkError>(e),
                None => Ok::<(), ZkError>(()),
            },
    {
        if !bytes32_eq(&public_inputs.anchor_root, current_ton_root) {
            return Err(ZkError::InvalidAnchorRoot);
        }
        if public_inputs.amount_in_ton == 0 || public_inputs.amount_in_ton > MAX_AMOUNT {
            return Err(ZkError::InvalidAmount);
        }
        if public_inputs.fee_bps > MAX_FEE_BPS {
            return Err(ZkError::InvalidFee);
        }
        let computed_event_id = Self::hash_event_components(
            &public_inputs.token_id,
            public_inputs.amount_in_ton,
            &public_inputs.recipient_solana,
            public_inputs.fee_bps,
            public_inputs.vk_version,
            &public_inputs.domain,
        );
        if !bytes32_eq(&public_inputs.event_id, &computed_event_id) {
            return Err(ZkError::InvalidEventId);
        }
        Ok(())
    }

    /// Placeholder proof check: the group elements must not be degenerate,
    /// and the nullifier and source transaction hash must be nonzero.
    pub fn mock_verify_proof(proof: &ZKProof, public_inputs: &EventPublicInputs) -> (r: Result<(), ZkError>)
        ensures
            r == match spec_proof_sanity_error(*proof, *public_inputs) {
                Some(e) => Err::<(), ZkError>(e),
                None => Ok::<(), ZkError>(()),
            },
    {
        if bytes_all_zero(proof.a.as_slice()) || bytes_all_zero(proof.b.as_slice())
            || bytes_all_zero(proof.c.as_slice()) {
            return Err(ZkError::BadProof);
        }
        if bytes_all_zero(public_inputs.nullifier.as_slice()) {
            return Err(ZkError::InvalidNullifier);
        }
        if bytes_all_zero(public_inputs.ton_tx_hash.as_slice()) {
            return Err(ZkError::InvalidTonTxHash);
        }
        Ok(())
    }

    /// The whole proof-verification stage: public inputs first, then the
    /// placeholder proof check. The stored verifying key is carried but not
    /// consulted by the placeholder rule.
    pub fn verify_ton_event_proof(proof: &ZKProof, public_inputs: &EventPublicInputs, current_ton_root: &[u8; 32], _verification_key: &Vec<u8>) -> (r: Result<(), ZkError>)
        ensures
            r == match spec_verify_proof_error(*proof, *public_inputs, current_ton_root@) {
                Some(e) => Err::<(), ZkError>(e),
                None => Ok::<(), ZkError>(()),
            },
    {
        match Self::validate_public_inputs(public_inputs, current_ton_root) {
            Err(e) => Err(e),
            Ok(()) => Self::mock_verify_proof(proof, public_inputs),
        }
    }
}

} // verus!
