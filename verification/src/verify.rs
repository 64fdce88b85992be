//! The slot-advance proof check: a placeholder acceptance rule standing in
//! for a real light-client proof, plus the monotonicity rule on slots.

use vstd::prelude::*;

use crate::zk_verifier::ZkError;

verus! {

/// The first check a slot-advance proof fails, or `None`: the new slot
/// must be strictly larger, and every proof byte must be the placeholder
/// marker 0xAA.
pub open spec fn spec_verify_mock_error(proof: Seq<u8>, old_slot: u64, new_slot: u64) -> Option<ZkError> {
    if new_slot <= old_slot {
        Some(ZkError::SlotGoesBackwards)
    } else if !(forall|j: int| 0 <= j < proof.len() ==> proof[j] == 0xAA) {
        Some(ZkError::BadProof)
    } else {
        None
    }
}

/// Accepts a slot-advance proof exactly when the slot strictly increases
/// and the placeholder proof is well formed.
pub fn verify_mock(proof: &[u8; 32], old_slot: u64, new_slot: u64) -> (r: Result<(), ZkError>)
    ensures
        r == match spec_verify_mock_error(proof@, old_slot, new_slot) {
            Some(e) => Err::<(), ZkError>(e),
            None => Ok::<(), ZkError>(()),
        },
{
    if new_slot <= old_slot {
        return Err(ZkError::SlotGoesBackwards);
    }
    let mut i: usize = 0;
    while i < 32
        invariant
            i <= 32,
            new_slot > old_slot,
            forall|j: int| 0 <= j < i ==> proof@[j] == 0xAA,
        decreases 32 - i,
    {
        if proof[i] != 0xAA {
            proof {
                assert(!(forall|j: int| 0 <= j < proof@.len() ==> proof@[j] == 0xAA)) by {
                    assert(proof@[i as int] != 0xAA);
                };
            }
            return Err(ZkError::BadProof);
        }
        i = i + 1;
    }
    Ok(())
}

} // verus!
