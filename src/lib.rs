//! Authorization and validation layer for instructions that mutate a ledger
//! of typed accounts.
//!
//! Every instruction is checked by a fixed, ordered list of validators
//! (existence, ownership, type tag, signatures, relationships, derived
//! addresses) before its effect runs; effects use checked arithmetic only,
//! and a rejected instruction leaves the ledger exactly as it was.
pub mod address;
pub mod error;
pub mod arith;
pub mod derive;
pub mod account;
pub mod signer;
pub mod ledger;
pub mod program;

pub use account::{
    AccountKind, RawEntry, RelationField, TypedAccount, UserProfile, Vault, PROFILE_TAG, VAULT_LEN,
    VAULT_TAG, encode_balance, encode_profile, read_tag, verify_owner, verify_relationship,
    verify_type,
};
pub use address::Address;
pub use arith::checked_add;
pub use derive::{find_canonical, verify_bump, verify_derived};
pub use error::ErrorKind;
pub use ledger::Ledger;
pub use program::{
    Instruction, OverflowContext, Program, SecureOwnerContext, SecurePdaContext, SecureRoleContext,
    SecureType, SecureWithdraw, dispatch, overflow_secure, owner_secure, pda_secure, role_secure,
    secure_seeds, update_profile_secure, withdraw_secure,
};
pub use signer::{ProofSet, verify_signer};
