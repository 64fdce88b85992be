//! The target-ledger verification state machine. A single `BridgeLedger`
//! stands for the program's on-ledger accounts: the anchor state, the
//! stored verifying key, and the nullifier and event records. Every
//! operation either applies its whole effect or leaves the ledger exactly
//! as it was.

use vstd::prelude::*;

use crate::state::{EventPublicInputs, EventState, LcState, NullifierState, VerifyingKey};
use crate::verify::{spec_verify_mock_error, verify_mock};
use crate::zk_verifier::{spec_verify_proof_error, ZKProof, ZKVerifier, ZkError};

verus! {

/// The record verify_ton_event hands to indexers, one per verified event.
#[derive(Clone, Debug, PartialEq, Eq)]
pub struct TonEventVerified {
    pub event_id: [u8; 32],
    pub recipient: [u8; 32],
    pub amount: u64,
    pub ton_tx_hash: [u8; 32],
    pub ton_sender: [u8; 32],
}

/// The program's whole on-ledger state.
#[derive(Clone, Debug, PartialEq, Eq)]
pub struct BridgeLedger {
    pub state: LcState,
    pub verifying_key: VerifyingKey,
    pub nullifiers: Vec<NullifierState>,
    pub events: Vec<EventState>,
}

/// Whether some record in `ns` carries the nullifier `n`.
pub open spec fn spec_has_nullifier(ns: Seq<NullifierState>, n: Seq<u8>) -> bool {
    exists|j: int| 0 <= j < ns.len() && ns[j].nullifier@ == n
}

/// The position of the record carrying `n`.
pub open spec fn spec_nullifier_index(ns: Seq<NullifierState>, n: Seq<u8>) -> int {
    choose|j: int| 0 <= j < ns.len() && ns[j].nullifier@ == n
}

/// Whether some record in `es` carries the event id `e`.
pub open spec fn spec_has_event(es: Seq<EventState>, e: Seq<u8>) -> bool {
    exists|j: int| 0 <= j < es.len() && es[j].event_id@ == e
}

/// The position of the record carrying `e`.
pub open spec fn spec_event_index(es: Seq<EventState>, e: Seq<u8>) -> int {
    choose|j: int| 0 <= j < es.len() && es[j].event_id@ == e
}

/// `ns` after the record for `rec.nullifier` is created or overwritten.
pub open spec fn spec_upsert_nullifier(ns: Seq<NullifierState>, rec: NullifierState) -> Seq<NullifierState> {
    if spec_has_nullifier(ns, rec.nullifier@) {
        ns.update(spec_nullifier_index(ns, rec.nullifier@), rec)
    } else {
        ns.push(rec)
    }
}

/// `es` after the record for `rec.event_id` is created or overwritten.
pub open spec fn spec_upsert_event(es: Seq<EventState>, rec: EventState) -> Seq<EventState> {
    if spec_has_event(es, rec.event_id@) {
        es.update(spec_event_index(es, rec.event_id@), rec)
    } else {
        es.push(rec)
    }
}

impl BridgeLedger {
    /// Nullifier and event records are keyed: no two records carry the
    /// same nullifier, and no two the same event id.
    pub open spec fn wf(self) -> bool {
        &&& forall|j1: int, j2: int|
            0 <= j1 < self.nullifiers@.len() && 0 <= j2 < self.nullifiers@.len()
                && self.nullifiers@[j1].nullifier@ == self.nullifiers@[j2].nullifier@ ==> j1 == j2
        &&& forall|j1: int, j2: int|
            0 <= j1 < self.events@.len() && 0 <= j2 < self.events@.len()
                && self.events@[j1].event_id@ == self.events@[j2].event_id@ ==> j1 == j2
    }

    /// Whether the nullifier `n` has already been consumed.
    pub open spec fn nullifier_consumed(self, n: Seq<u8>) -> bool {
        exists|j: int|
            0 <= j < self.nullifiers@.len() && self.nullifiers@[j].nullifier@ == n
                && self.nullifiers@[j].consumed
    }

    /// The rejection verify_ton_event answers with, or `None` when the
    /// event is accepted: the proof-stage checks in order, then the
    /// double-spend guard.
    pub open spec fn spec_verify_error(self, proof: ZKProof, i: EventPublicInputs) -> Option<ZkError> {
        match spec_verify_proof_error(proof, i, self.state.ton_state_root@) {
            Some(e) => Some(e),
            None => if self.nullifier_consumed(i.nullifier@) {
                Some(ZkError::EventAlreadyConsumed)
            } else {
                None
            },
        }
    }

    /// Creates the program state: the payer becomes admin, the slot count
    /// starts at zero, and the verifying-key slot is registered empty.
    pub fn init_state(vk_id: u32, initial_ton_root: [u8; 32], relayer: [u8; 32], payer: [u8; 32]) -> (r: Self)
        ensures
            r.wf(),
            r.state.admin == payer,
            r.state.last_verified_slot == 0,
            r.state.vk_id == vk_id,
            r.state.ton_state_root == initial_ton_root,
            r.state.relayer == relayer,
            r.verifying_key.vk_id == vk_id,
            r.verifying_key.data@.len() == 0,
            r.nullifiers@.len() == 0,
            r.events@.len() == 0,
    {
        BridgeLedger {
            state: LcState {
                admin: payer,
                last_verified_slot: 0,
                vk_id,
                ton_state_root: initial_ton_root,
                relayer,
            },
            verifying_key: VerifyingKey { vk_id, data: Vec::new() },
            nullifiers: Vec::new(),
            events: Vec::new(),
        }
    }

    /// Overwrites the anchored source root; permitted only to the admin or
    /// the authorized relayer. No other state moves.
    pub fn update_ton_root(&mut self, signer: &[u8; 32], new_ton_root: [u8; 32]) -> (r: Result<(), ZkError>)
        requires
            old(self).wf(),
        ensures
            final(self).wf(),
            if signer@ == old(self).state.admin@ || signer@ == old(self).state.relayer@ {
                &&& r == Ok::<(), ZkError>(())
                &&& final(self).state.ton_state_root == new_ton_root
                &&& final(self).state.admin == old(self).state.admin
                &&& final(self).state.relayer == old(self).state.relayer
                &&& final(self).state.last_verified_slot == old(self).state.last_verified_slot
                &&& final(self).state.vk_id == old(self).state.vk_id
                &&& final(self).verifying_key == old(self).verifying_key
                &&& final(self).nullifiers == old(self).nullifiers
                &&& final(self).events == old(self).events
            } else {
                r == Err::<(), ZkError>(ZkError::UnauthorizedRelayer) && *final(self) == *old(self)
            },
    {
        let authorized = crate::bytes::bytes32_eq(signer, &self.state.admin)
            || crate::bytes::bytes32_eq(signer, &self.state.relayer);
        if !authorized {
            return Err(ZkError::UnauthorizedRelayer);
        }
        self.state.ton_state_root = new_ton_root;
        Ok(())
    }

    /// Advances the last verified slot when the slot-advance proof is
    /// accepted; the slot only ever increases.
    pub fn verify_update(&mut self, new_slot: u64, proof: &[u8; 32]) -> (r: Result<(), ZkError>)
        requires
            old(self).wf(),
        ensures
            final(self).wf(),
            match spec_verify_mock_error(proof@, old(self).state.last_verified_slot, new_slot) {
                Some(e) => r == Err::<(), ZkError>(e) && *final(self) == *old(self),
                None => {
                    &&& r == Ok::<(), ZkError>(())
                    &&& final(self).state.last_verified_slot == new_slot
                    &&& new_slot > old(self).state.last_verified_slot
                    &&& final(self).state.admin == old(self).state.admin
                    &&& final(self).state.relayer == old(self).state.relayer
                    &&& final(self).state.ton_state_root == old(self).state.ton_state_root
                    &&& final(self).state.vk_id == old(self).state.vk_id
                    &&& final(self).verifying_key == old(self).verifying_key
                    &&& final(self).nullifiers == old(self).nullifiers
                    &&& final(self).events == old(self).events
                },
            },
    {
        match verify_mock(proof, self.state.last_verified_slot, new_slot) {
            Err(e) => Err(e),
            Ok(()) => {
                self.state.last_verified_slot = new_slot;
                Ok(())
            },
        }
    }

    /// The verification state machine: checks the proof and public inputs
    /// against the anchored root, then atomically consumes the nullifier
    /// and records the event. On any rejection the ledger is untouched; on
    /// acceptance the nullifier record is terminal-consumed, the event
    /// record is written, and the returned notification carries the
    /// event's public fields.
    pub fn verify_ton_event(&mut self, proof: &ZKProof, public_inputs: &EventPublicInputs) -> (r: Result<TonEventVerified, ZkError>)
        requires
            old(self).wf(),
        ensures
            final(self).wf(),
            match old(self).spec_verify_error(*proof, *public_inputs) {
                Some(e) => r == Err::<TonEventVerified, ZkError>(e) && *final(self) == *old(self),
                None => {
                    &&& r is Ok
                    &&& ({
                        let ev = r->Ok_0;
                        &&& ev.event_id == public_inputs.event_id
                        &&& ev.recipient == public_inputs.recipient_solana
                        &&& ev.amount == public_inputs.amount_in_ton
                        &&& ev.ton_tx_hash == public_inputs.ton_tx_hash
                        &&& ev.ton_sender == public_inputs.ton_sender
                    })
                    &&& final(self).state == old(self).state
                    &&& final(self).verifying_key == old(self).verifying_key
                    &&& final(self).nullifiers@ == spec_upsert_nullifier(
                        old(self).nullifiers@,
                        NullifierState {
                            consumed: true,
                            nullifier: public_inputs.nullifier,
                            ton_tx_hash: public_inputs.ton_tx_hash,
                        },
                    )
                    &&& final(self).events@ == spec_upsert_event(
                        old(self).events@,
                        EventState {
                            consumed: true,
                            event_id: public_inputs.event_id,
                            recipient: public_inputs.recipient_solana,
                            amount: public_inputs.amount_in_ton,
                            ton_tx_hash: public_inputs.ton_tx_hash,
                            ton_sender: public_inputs.ton_sender,
                        },
                    )
                    &&& final(self).nullifier_consumed(public_inputs.nullifier@)
                },
            },
    {
        match ZKVerifier::verify_ton_event_proof(
            proof,
            public_inputs,
            &self.state.ton_state_root,
            &self.verifying_key.data,
        ) {
            Err(e) => {
                return Err(e);
            },
            Ok(()) => {},
        }

        // Double-spend guard: look the nullifier record up, reject if it
        // is already consumed, otherwise consume it in the same step.
        let nullifier_rec = NullifierState {
            consumed: true,
            nullifier: public_inputs.nullifier,
            ton_tx_hash: public_inputs.ton_tx_hash,
        };
        let ghost n = public_inputs.nullifier@;
        let ghost ns0 = old(self).nullifiers@;
        match find_nullifier_index(&self.nullifiers, &public_inputs.nullifier) {
            Some(idx) => {
                if self.nullifiers[idx].consumed {
                    proof {
                        assert(old(self).nullifier_consumed(n)) by {
                            assert(ns0[idx as int].nullifier@ == n && ns0[idx as int].consumed);
                        };
                    }
                    return Err(ZkError::EventAlreadyConsumed);
                }
                proof {
                    assert(forall|j: int| 0 <= j < ns0.len() && ns0[j].nullifier@ == n ==> j == idx);
                    assert(!old(self).nullifier_consumed(n));
                    assert(spec_has_nullifier(ns0, n)) by {
                        assert(ns0[idx as int].nullifier@ == n);
                    };
                    assert(spec_nullifier_index(ns0, n) == idx);
                }
                let slot = &mut self.nullifiers[idx];
                *slot = nullifier_rec;
                proof {
                    assert(self.nullifiers@ =~= spec_upsert_nullifier(ns0, nullifier_rec));
                    // the update replaces the record but keeps its key
                    assert(forall|j: int| 0 <= j < self.nullifiers@.len()
                        ==> #[trigger] self.nullifiers@[j].nullifier@ == ns0[j].nullifier@);
                    assert(self.nullifiers@[idx as int].nullifier@ == n
                        && self.nullifiers@[idx as int].consumed);
                }
            },
            None => {
                proof {
                    assert(!old(self).nullifier_consumed(n));
                    assert(!spec_has_nullifier(ns0, n));
                }
                self.nullifiers.push(nullifier_rec);
                proof {
                    assert(self.nullifiers@ =~= spec_upsert_nullifier(ns0, nullifier_rec));
                    assert(self.nullifiers@[ns0.len() as int].nullifier@ == n
                        && self.nullifiers@[ns0.len() as int].consumed);
                    // every old record keeps its key, the new key is fresh
                    assert(forall|j: int| 0 <= j < ns0.len()
                        ==> #[trigger] self.nullifiers@[j].nullifier@ == ns0[j].nullifier@
                            && ns0[j].nullifier@ != n);
                }
            },
        }

        let event_rec = EventState {
            consumed: true,
            event_id: public_inputs.event_id,
            recipient: public_inputs.recipient_solana,
            amount: public_inputs.amount_in_ton,
            ton_tx_hash: public_inputs.ton_tx_hash,
            ton_sender: public_inputs.ton_sender,
        };
        let ghost eid = public_inputs.event_id@;
        let ghost es0 = old(self).events@;
        match find_event_index(&self.events, &public_inputs.event_id) {
            Some(idx) => {
                proof {
                    assert(forall|j: int| 0 <= j < es0.len() && es0[j].event_id@ == eid ==> j == idx);
                    assert(spec_has_event(es0, eid)) by {
                        assert(es0[idx as int].event_id@ == eid);
                    };
                    assert(spec_event_index(es0, eid) == idx);
                }
                let slot = &mut self.events[idx];
                *slot = event_rec;
                proof {
                    assert(self.events@ =~= spec_upsert_event(es0, event_rec));
                    // the update replaces the record but keeps its key
                    assert(forall|j: int| 0 <= j < self.events@.len()
                        ==> #[trigger] self.events@[j].event_id@ == es0[j].event_id@);
                }
            },
            None => {
                proof {
                    assert(!spec_has_event(es0, eid));
                }
                self.events.push(event_rec);
                proof {
                    assert(self.events@ =~= spec_upsert_event(es0, event_rec));
                    // every old record keeps its key, the new key is fresh
                    assert(forall|j: int| 0 <= j < es0.len()
                        ==> #[trigger] self.events@[j].event_id@ == es0[j].event_id@
                            && es0[j].event_id@ != eid);
                }
            },
        }

        proof {
            assert(old(self).spec_verify_error(*proof, *public_inputs) is None);
            assert(self.state == old(self).state);
            assert(self.verifying_key == old(self).verifying_key);
            assert(self.nullifiers@ == spec_upsert_nullifier(ns0, nullifier_rec));
            assert(self.events@ == spec_upsert_event(es0, event_rec));
            assert(self.nullifier_consumed(n));
            assert(self.wf());
        }
        Ok(TonEventVerified {
            event_id: public_inputs.event_id,
            recipient: public_inputs.recipient_solana,
            amount: public_inputs.amount_in_ton,
            ton_tx_hash: public_inputs.ton_tx_hash,
            ton_sender: public_inputs.ton_sender,
        })
    }
}

/// Double-spend protection is idempotent. Once `verify_ton_event` has
/// accepted an event — so its nullifier is consumed and the anchor state
/// is unchanged — a second call with the identical proof and public
/// inputs is rejected with `EventAlreadyConsumed`; by the rejection case
/// of `verify_ton_event`'s contract, that second call leaves the ledger
/// exactly as the first call left it.
///
/// The hypotheses are clauses of `verify_ton_event`'s acceptance
/// contract: `l0` is the ledger before the first call and `l1` the ledger
/// it leaves behind.
pub proof fn lemma_double_spend_idempotent(l0: BridgeLedger, l1: BridgeLedger, proof: ZKProof, i: EventPublicInputs)
    requires
        l0.spec_verify_error(proof, i) is None,
        l1.state == l0.state,
        l1.nullifier_consumed(i.nullifier@),
    ensures
        l1.spec_verify_error(proof, i) == Some(ZkError::EventAlreadyConsumed),
{
    assert(l1.state.ton_state_root@ == l0.state.ton_state_root@);
}

/// The position of the record carrying nullifier `n`, or `None`.
fn find_nullifier_index(ns: &Vec<NullifierState>, n: &[u8; 32]) -> (r: Option<usize>)
    ensures
        match r {
            Some(idx) => idx < ns@.len() && ns@[idx as int].nullifier@ == n@,
            None => forall|j: int| 0 <= j < ns@.len() ==> ns@[j].nullifier@ != n@,
        },
{
    let len = ns.len();
    let mut i: usize = 0;
    while i < len
        invariant
            len == ns@.len(),
            i <= len,
            forall|j: int| 0 <= j < i ==> ns@[j].nullifier@ != n@,
        decreases len - i,
    {
        if crate::bytes::bytes32_eq(&ns[i].nullifier, n) {
            return Some(i);
        }
        i = i + 1;
    }
    None
}

/// The position of the record carrying event id `e`, or `None`.
fn find_event_index(es: &Vec<EventState>, e: &[u8; 32]) -> (r: Option<usize>)
    ensures
        match r {
            Some(idx) => idx < es@.len() && es@[idx as int].event_id@ == e@,
            None => forall|j: int| 0 <= j < es@.len() ==> es@[j].event_id@ != e@,
        },
{
    let len = es.len();
    let mut i: usize = 0;
    while i < len
        invariant
            len == es@.len(),
            i <= len,
            forall|j: int| 0 <= j < i ==> es@[j].event_id@ != e@,
        decreases len - i,
    {
        if crate::bytes::bytes32_eq(&es[i].event_id, e) {
            return Some(i);
        }
        i = i + 1;
    }
    None
}

} // verus!
