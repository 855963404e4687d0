//! Verifier gateway: turns a (proof, public witness) pair and the caller's
//! auxiliary capabilities into the call that is handed to an external
//! zero-knowledge verifier module. The gateway only assembles the call; the
//! verifier module itself is an opaque external collaborator that either
//! accepts or rejects it.

use vstd::prelude::*;

use crate::bytes::{concat_bytes, copy_bytes};

verus! {

/// A capability handed through to the external verifier call: an identity
/// plus its mutability and signing-authority attributes, forwarded verbatim.
#[derive(Debug)]
pub struct CapabilityHandle {
    pub key: Vec<u8>,
    pub is_writable: bool,
    pub is_signer: bool,
}

/// A fully assembled call into an external verifier module: the module's
/// identity, the forwarded capabilities, the identities making up the call's
/// execution context — the verifier module's own identity first, then each
/// capability's — and the opaque payload.
#[derive(Debug)]
pub struct VerifierCall {
    pub program_id: Vec<u8>,
    pub accounts: Vec<CapabilityHandle>,
    pub execution_identities: Vec<Vec<u8>>,
    pub data: Vec<u8>,
}

/// Builds the verifier call: the payload is `proof` immediately followed by
/// `public_witness` (no separator, no extra length prefix), every capability
/// is forwarded unchanged, and the execution context starts with the verifier
/// module's own identity.
pub fn build_verifier_call(
    verifier_id: &Vec<u8>,
    proof: &Vec<u8>,
    public_witness: &Vec<u8>,
    capabilities: Vec<CapabilityHandle>,
) -> (c: VerifierCall)
    ensures
        c.program_id@ == verifier_id@,
        c.accounts == capabilities,
        c.data@ == proof@ + public_witness@,
        c.execution_identities@.len() == 1 + capabilities@.len(),
        c.execution_identities@[0]@ == verifier_id@,
        forall|i: int|
            0 <= i < capabilities@.len() ==> #[trigger] c.execution_identities@[i + 1]@
                == capabilities@[i].key@,
{
    let program_id = copy_bytes(verifier_id);
    let data = concat_bytes(proof, public_witness);
    let mut execution_identities: Vec<Vec<u8>> = Vec::new();
    execution_identities.push(copy_bytes(verifier_id));
    let mut i: usize = 0;
    while i < capabilities.len()
        invariant
            i <= capabilities@.len(),
            execution_identities@.len() == 1 + i,
            execution_identities@[0]@ == verifier_id@,
            forall|j: int|
                0 <= j < i ==> #[trigger] execution_identities@[j + 1]@ == capabilities@[j].key@,
        decreases capabilities@.len() - i,
    {
        execution_identities.push(copy_bytes(&capabilities[i].key));
        i += 1;
    }
    VerifierCall { program_id, accounts: capabilities, execution_identities, data }
}

} // verus!
