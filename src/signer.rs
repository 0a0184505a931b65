use vstd::prelude::*;
use crate::address::Address;
use crate::error::ErrorKind;

verus! {

/// The addresses whose signatures accompany the current request.
#[derive(Debug, Clone)]
pub struct ProofSet {
    pub signers: Vec<Address>,
}

impl ProofSet {
    /// `a` signed the request.
    pub open spec fn signed(&self, a: Seq<u8>) -> bool {
        exists|i: int| 0 <= i < self.signers@.len() && self.signers@[i]@ == a
    }

    /// A proof set holding exactly the given signers.
    pub fn new(signers: Vec<Address>) -> (r: ProofSet)
        ensures
            r.signers@ == signers@,
    {
        ProofSet { signers }
    }

    /// Whether `a` is among the signers.
    pub fn contains(&self, a: &Address) -> (r: bool)
        ensures
            r == self.signed(a@),
    {
        let mut i: usize = 0;
        while i < self.signers.len()
            invariant
                i <= self.signers@.len(),
                forall|j: int| 0 <= j < i ==> self.signers@[j]@ != a@,
            decreases self.signers@.len() - i,
        {
            if self.signers[i].same_as(a) {
                return true;
            }
            i = i + 1;
        }
        false
    }
}

/// Accepts only if `address` signed the request.
pub fn verify_signer(address: &Address, proofs: &ProofSet) -> (r: Result<(), ErrorKind>)
    ensures
        r == (if proofs.signed(address@) {
            Ok::<(), ErrorKind>(())
        } else {
            Err(ErrorKind::MissingSignature)
        }),
{
    if proofs.contains(address) {
        Ok(())
    } else {
        Err(ErrorKind::MissingSignature)
    }
}

} // verus!
