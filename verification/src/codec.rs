//! Wire encoding of a verified deposit submission: the proof, the
//! verifying key and the deposit's identifying fields, UTF-8 encoded and
//! joined by `;` separators, in a fixed order.

use vstd::prelude::*;

use crate::types::Deposit;

verus! {

/// The encoded submission payload: proof, verification key, deposit id,
/// source transaction hash, recipient and amount, each as its UTF-8
/// bytes, separated by `;` (byte 59).
pub open spec fn spec_proof_data(proof: Seq<char>, verification_key: Seq<char>, deposit_id: Seq<char>, ton_tx_hash: Seq<char>, recipient_solana: Seq<char>, amount: Seq<char>) -> Seq<u8> {
    vstd::utf8::encode_utf8(proof) + seq![59u8] + vstd::utf8::encode_utf8(verification_key)
        + seq![59u8] + vstd::utf8::encode_utf8(deposit_id) + seq![59u8]
        + vstd::utf8::encode_utf8(ton_tx_hash) + seq![59u8]
        + vstd::utf8::encode_utf8(recipient_solana) + seq![59u8]
        + vstd::utf8::encode_utf8(amount)
}

/// Encodes one deposit, its proof and the verifying key into the payload
/// handed to the target-chain instruction.
pub fn serialize_proof_data(deposit: &Deposit, proof: &str, verification_key: &str) -> (r: Vec<u8>)
    ensures
        r@ == spec_proof_data(proof@, verification_key@, deposit.deposit_id@, deposit.ton_tx_hash@, deposit.recipient_solana@, deposit.amount@),
{
    let mut data: Vec<u8> = Vec::new();
    data.extend_from_slice(proof.as_bytes());
    data.push(59u8);
    data.extend_from_slice(verification_key.as_bytes());
    data.push(59u8);
    data.extend_from_slice(deposit.deposit_id.as_str().as_bytes());
    data.push(59u8);
    data.extend_from_slice(deposit.ton_tx_hash.as_str().as_bytes());
    data.push(59u8);
    data.extend_from_slice(deposit.recipient_solana.as_str().as_bytes());
    data.push(59u8);
    data.extend_from_slice(deposit.amount.as_str().as_bytes());
    proof {
        assert(data@ =~= spec_proof_data(proof@, verification_key@, deposit.deposit_id@, deposit.ton_tx_hash@, deposit.recipient_solana@, deposit.amount@));
    }
    data
}

} // verus!
