use vstd::prelude::*;

verus! {

/// The reasons an instruction can be rejected. Each names the first check
/// that failed; a rejected instruction never changes the ledger.
#[derive(Debug, Clone, Copy, PartialEq, Eq, Structural)]
pub enum ErrorKind {
    /// A required actor did not sign the request.
    MissingSignature,
    /// An account is not controlled by the expected controller.
    OwnerMismatch,
    /// An account's type tag is not the one the instruction expects.
    TypeMismatch,
    /// An address is not the canonical derived address for its seeds.
    NonCanonicalAddress,
    /// A declared field of one account does not name the other account.
    RelationshipMismatch,
    /// A balance update would exceed the largest representable value.
    ArithmeticOverflow,
    /// A required account is absent from the ledger.
    AccountNotFound,
}

} // verus!
