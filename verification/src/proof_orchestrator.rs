//! Choice of the external prover endpoint. The prover itself is an
//! outside collaborator reached over the network by the surrounding
//! program; the library only fixes which endpoint is used.

use vstd::prelude::*;

verus! {

/// The prover endpoint: the first configured validator, or the local
/// default when none is configured.
pub fn select_circuit_service_url(validators: &Vec<String>) -> (r: String)
    ensures
        if validators@.len() > 0 {
            r@ == validators@[0]@
        } else {
            r@ == "http://localhost:8080"@
        },
{
    if validators.len() > 0 {
        validators[0].clone()
    } else {
        "http://localhost:8080".to_owned()
    }
}

} // verus!
