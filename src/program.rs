use vstd::prelude::*;
use vstd::bytes::spec_u64_from_le_bytes;
use crate::account::{
    AccountKind, RawEntry, RelationField, TypedAccount, decodes_as, encode_balance, encode_profile,
    is_kind_data, is_profile_data, is_vault_data, lemma_balance_round_trip, lemma_profile_round_trip,
    profile_bytes, profile_name_len, vault_with_balance, verify_owner,
    verify_relationship, verify_type,
};
use crate::address::Address;
use crate::arith::checked_add;
use crate::derive::{address_with_bump, is_canonical_bump, verify_derived};
use crate::error::ErrorKind;
use crate::ledger::Ledger;
use crate::signer::{ProofSet, verify_signer};

verus! {

/// The identities the instructions check ownership against: the program
/// that controls the typed accounts, and the system controller.
#[derive(Debug, Clone, Copy)]
pub struct Program {
    pub id: Address,
    pub system_id: Address,
}

/// Accounts of a withdrawal: the vault and the signing user.
#[derive(Debug, Clone, Copy)]
pub struct SecureWithdraw {
    pub vault: Address,
    pub user: Address,
}

/// Accounts of a deposit: the vault whose balance grows.
#[derive(Debug, Clone, Copy)]
pub struct OverflowContext {
    pub data_account: Address,
}

/// Accounts of an ownership check: an account the system must control.
#[derive(Debug, Clone, Copy)]
pub struct SecureOwnerContext {
    pub token_account: Address,
}

/// Accounts of a settings update: the configuration vault and its admin.
#[derive(Debug, Clone, Copy)]
pub struct SecureRoleContext {
    pub config: Address,
    pub admin: Address,
}

/// Accounts of a derived-address access: the vault at the derived address.
#[derive(Debug, Clone, Copy)]
pub struct SecurePdaContext {
    pub pda_account: Address,
}

/// Accounts of a profile update: the profile and its signing authority.
#[derive(Debug, Clone, Copy)]
pub struct SecureType {
    pub profile: Address,
    pub authority: Address,
}

/// An instruction: its kind, the accounts it names, and its arguments.
#[derive(Debug, Clone)]
pub enum Instruction {
    Withdraw { accounts: SecureWithdraw, amount: u64 },
    Deposit { accounts: OverflowContext, amount: u64 },
    CheckOwner { accounts: SecureOwnerContext },
    UpdateSettings { accounts: SecureRoleContext, new_settings: u64 },
    AccessDerived { accounts: SecurePdaContext },
    UpdateProfile { accounts: SecureType, name: Vec<u8> },
}

/// The one seed of the derived vault address: `secure-seed`.
pub open spec fn secure_seed() -> Seq<u8> {
    seq![115u8, 101, 99, 117, 114, 101, 45, 115, 101, 101, 100]
}

/// The first failure of two checks run in order.
pub open spec fn first_of(a: Option<ErrorKind>, b: Option<ErrorKind>) -> Option<ErrorKind> {
    if a is Some {
        a
    } else {
        b
    }
}

/// Existence, ownership and type checks of one account, in that order.
pub open spec fn account_failure(l: Ledger, owner: Seq<u8>, a: Seq<u8>, kind: AccountKind) -> Option<ErrorKind> {
    if !l.has(a) {
        Some(ErrorKind::AccountNotFound)
    } else if l.entry(a).controller@ != owner {
        Some(ErrorKind::OwnerMismatch)
    } else if !is_kind_data(l.entry(a).data@, kind) {
        Some(ErrorKind::TypeMismatch)
    } else {
        None
    }
}

/// The signature check of one actor.
pub open spec fn signer_failure(p: ProofSet, a: Seq<u8>) -> Option<ErrorKind> {
    if p.signed(a) {
        None
    } else {
        Some(ErrorKind::MissingSignature)
    }
}

/// The check that a field names the expected account.
pub open spec fn relation_failure(field: Seq<u8>, other: Seq<u8>) -> Option<ErrorKind> {
    if field == other {
        None
    } else {
        Some(ErrorKind::RelationshipMismatch)
    }
}

/// The check that `a` is the canonical derived address of the seeds.
pub open spec fn derived_failure(controller: Seq<u8>, seeds: Seq<Seq<u8>>, a: Seq<u8>) -> Option<ErrorKind> {
    if exists|b: u8| is_canonical_bump(controller, seeds, b) && address_with_bump(controller, seeds, b) == Some(a) {
        None
    } else {
        Some(ErrorKind::NonCanonicalAddress)
    }
}

/// The admin field of vault data.
pub open spec fn vault_admin(data: Seq<u8>) -> Seq<u8> {
    data.subrange(8, 40)
}

/// The balance field of vault data.
pub open spec fn vault_balance(data: Seq<u8>) -> u64 {
    spec_u64_from_le_bytes(data.subrange(40, 48))
}

/// The authority field of profile data.
pub open spec fn profile_authority(data: Seq<u8>) -> Seq<u8> {
    let n = profile_name_len(data);
    data.subrange(12 + n, 12 + n + 32)
}

/// Withdrawal checks: the vault, then the user's signature.
pub open spec fn withdraw_failure(l: Ledger, prog: Program, p: ProofSet, c: SecureWithdraw) -> Option<ErrorKind> {
    first_of(account_failure(l, prog.id@, c.vault@, AccountKind::Vault), signer_failure(p, c.user@))
}

/// Deposit checks: the vault, then that the new balance fits.
pub open spec fn deposit_failure(l: Ledger, prog: Program, c: OverflowContext, amount: u64) -> Option<ErrorKind> {
    first_of(
        account_failure(l, prog.id@, c.data_account@, AccountKind::Vault),
        if vault_balance(l.entry(c.data_account@).data@) + amount > u64::MAX {
            Some(ErrorKind::ArithmeticOverflow)
        } else {
            None
        },
    )
}

/// Ownership checks: the account exists and the system controls it.
pub open spec fn owner_failure(l: Ledger, prog: Program, c: SecureOwnerContext) -> Option<ErrorKind> {
    if !l.has(c.token_account@) {
        Some(ErrorKind::AccountNotFound)
    } else if l.entry(c.token_account@).controller@ != prog.system_id@ {
        Some(ErrorKind::OwnerMismatch)
    } else {
        None
    }
}

/// Settings checks: the config vault, the admin's signature, then that the
/// vault's admin field names the admin.
pub open spec fn role_failure(l: Ledger, prog: Program, p: ProofSet, c: SecureRoleContext) -> Option<ErrorKind> {
    first_of(
        account_failure(l, prog.id@, c.config@, AccountKind::Vault),
        first_of(
            signer_failure(p, c.admin@),
            relation_failure(vault_admin(l.entry(c.config@).data@), c.admin@),
        ),
    )
}

/// Derived-access checks: the canonical derived address, then the vault.
pub open spec fn pda_failure(l: Ledger, prog: Program, c: SecurePdaContext) -> Option<ErrorKind> {
    first_of(
        derived_failure(prog.id@, seq![secure_seed()], c.pda_account@),
        account_failure(l, prog.id@, c.pda_account@, AccountKind::Vault),
    )
}

/// Profile checks: the profile, the authority's signature, then that the
/// profile's authority field names the authority.
pub open spec fn profile_failure(l: Ledger, prog: Program, p: ProofSet, c: SecureType) -> Option<ErrorKind> {
    first_of(
        account_failure(l, prog.id@, c.profile@, AccountKind::Profile),
        first_of(
            signer_failure(p, c.authority@),
            relation_failure(profile_authority(l.entry(c.profile@).data@), c.authority@),
        ),
    )
}

/// The first validator of the instruction that fails, if any.
pub open spec fn failure(l: Ledger, prog: Program, p: ProofSet, instr: Instruction) -> Option<ErrorKind> {
    match instr {
        Instruction::Withdraw { accounts, .. } => withdraw_failure(l, prog, p, accounts),
        Instruction::Deposit { accounts, amount } => deposit_failure(l, prog, accounts, amount),
        Instruction::CheckOwner { accounts } => owner_failure(l, prog, accounts),
        Instruction::UpdateSettings { accounts, .. } => role_failure(l, prog, p, accounts),
        Instruction::AccessDerived { accounts } => pda_failure(l, prog, accounts),
        Instruction::UpdateProfile { accounts, .. } => profile_failure(l, prog, p, accounts),
    }
}

/// The actor whose signature the instruction requires, if any.
pub open spec fn required_signer(instr: Instruction) -> Option<Seq<u8>> {
    match instr {
        Instruction::Withdraw { accounts, .. } => Some(accounts.user@),
        Instruction::UpdateSettings { accounts, .. } => Some(accounts.admin@),
        Instruction::UpdateProfile { accounts, .. } => Some(accounts.authority@),
        _ => None,
    }
}

/// The account checks that run before the signature check.
pub open spec fn pre_signer_failure(l: Ledger, prog: Program, instr: Instruction) -> Option<ErrorKind> {
    match instr {
        Instruction::Withdraw { accounts, .. } => account_failure(l, prog.id@, accounts.vault@, AccountKind::Vault),
        Instruction::UpdateSettings { accounts, .. } => account_failure(l, prog.id@, accounts.config@, AccountKind::Vault),
        Instruction::UpdateProfile { accounts, .. } => account_failure(l, prog.id@, accounts.profile@, AccountKind::Profile),
        _ => None,
    }
}

/// `after` is `before` with the data of entry `i` replaced by `data`.
pub open spec fn data_replaced(before: Seq<RawEntry>, after: Seq<RawEntry>, i: int, data: Seq<u8>) -> bool {
    &&& 0 <= i < before.len()
    &&& after.len() == before.len()
    &&& forall|j: int| 0 <= j < before.len() && j != i ==> after[j] == before[j]
    &&& after[i].address == before[i].address
    &&& after[i].controller == before[i].controller
    &&& after[i].data@ == data
}

/// `after` is the ledger once a deposit of `amount` has been applied.
pub open spec fn deposit_applied(before: Ledger, after: Ledger, c: OverflowContext, amount: u64) -> bool {
    let e = before.entry(c.data_account@);
    let balance = (vault_balance(e.data@) + amount) as u64;
    data_replaced(before.entries@, after.entries@, before.index_of(c.data_account@), vault_with_balance(e.data@, balance))
}

/// `after` is the ledger once the profile's name has been set to `name`.
pub open spec fn profile_applied(before: Ledger, after: Ledger, c: SecureType, name: Seq<u8>) -> bool {
    let e = before.entry(c.profile@);
    data_replaced(before.entries@, after.entries@, before.index_of(c.profile@), profile_bytes(name, profile_authority(e.data@)))
}

/// `after` is the ledger once the instruction's effect has been applied.
pub open spec fn applied(before: Ledger, after: Ledger, instr: Instruction) -> bool {
    match instr {
        Instruction::Deposit { accounts, amount } => deposit_applied(before, after, accounts, amount),
        Instruction::UpdateProfile { accounts, name } => profile_applied(before, after, accounts, name@),
        _ => after == before,
    }
}

/// The result of a check list whose first failure is `f`.
pub open spec fn outcome(f: Option<ErrorKind>) -> Result<(), ErrorKind> {
    match f {
        Some(e) => Err(e),
        None => Ok(()),
    }
}

/// An instruction whose required signer is absent from the proof set never
/// succeeds, and once the account checks before the signature check pass,
/// it fails with `MissingSignature` (and `dispatch` then leaves the ledger
/// unchanged).
pub proof fn lemma_missing_signer_rejected(l: Ledger, prog: Program, p: ProofSet, instr: Instruction, x: Seq<u8>)
    requires
        required_signer(instr) == Some(x),
        !p.signed(x),
    ensures
        failure(l, prog, p, instr) is Some,
        pre_signer_failure(l, prog, instr) is None ==> failure(l, prog, p, instr) == Some(ErrorKind::MissingSignature),
{
}

/// A request rejected for a missing signature, retried with the required
/// signer's signature added, is never rejected for a missing signature again:
/// it succeeds or fails on a later check.
pub proof fn lemma_added_signature(l: Ledger, prog: Program, p1: ProofSet, p2: ProofSet, instr: Instruction, x: Address)
    requires
        failure(l, prog, p1, instr) == Some(ErrorKind::MissingSignature),
        required_signer(instr) == Some(x@),
        p2.signers@ == p1.signers@.push(x),
    ensures
        failure(l, prog, p2, instr) != Some(ErrorKind::MissingSignature),
{
    assert(p2.signers@[p1.signers@.len() as int]@ == x@);
    assert(p2.signed(x@));
}

/// The seed list of the derived vault address.
pub fn secure_seeds() -> (r: Vec<Vec<u8>>)
    ensures
        r.deep_view() == seq![secure_seed()],
{
    let seed: Vec<u8> = vec![115u8, 101, 99, 117, 114, 101, 45, 115, 101, 101, 100];
    let mut seeds: Vec<Vec<u8>> = Vec::new();
    seeds.push(seed);
    assert(seeds@ == seq![seed]);
    assert(seed@ =~= secure_seed());
    assert(seeds.deep_view()[0] =~= secure_seed());
    assert(seeds.deep_view() =~= seq![secure_seed()]);
    seeds
}

/// Runs the existence, ownership and type checks of one account, in that
/// order, and returns its position and decoded view.
fn load_account(ledger: &Ledger, owner: &Address, a: &Address, kind: AccountKind) -> (r: Result<(usize, TypedAccount), ErrorKind>)
    requires
        ledger.wf(),
    ensures
        r is Err <==> account_failure(*ledger, owner@, a@, kind) is Some,
        r matches Err(e) ==> account_failure(*ledger, owner@, a@, kind) == Some(e),
        r matches Ok((i, t)) ==> {
            &&& i == ledger.index_of(a@)
            &&& i < ledger.entries@.len()
            &&& decodes_as(ledger.entry(a@).data@, kind, t)
        },
{
    let i = match ledger.find(a) {
        Some(i) => i,
        None => {
            return Err(ErrorKind::AccountNotFound);
        },
    };
    let entry = &ledger.entries[i];
    match verify_owner(entry, owner) {
        Ok(()) => {},
        Err(e) => {
            return Err(e);
        },
    }
    match verify_type(entry, kind) {
        Ok(t) => Ok((i, t)),
        Err(e) => Err(e),
    }
}

/// Withdrawal: the vault must be a vault of this program and the user must
/// have signed. Validation only; the ledger is read, never written.
pub fn withdraw_secure(ledger: &Ledger, program: &Program, proofs: &ProofSet, ctx: &SecureWithdraw, amount: u64) -> (r: Result<(), ErrorKind>)
    requires
        ledger.wf(),
    ensures
        r == outcome(withdraw_failure(*ledger, *program, *proofs, *ctx)),
{
    match load_account(ledger, &program.id, &ctx.vault, AccountKind::Vault) {
        Ok(_) => {},
        Err(e) => {
            return Err(e);
        },
    }
    verify_signer(&ctx.user, proofs)
}

/// Deposit: adds `amount` to the vault's balance with checked arithmetic.
/// On any failure the ledger is unchanged.
pub fn overflow_secure(ledger: &mut Ledger, program: &Program, ctx: &OverflowContext, amount: u64) -> (r: Result<(), ErrorKind>)
    requires
        old(ledger).wf(),
    ensures
        final(ledger).wf(),
        r == outcome(deposit_failure(*old(ledger), *program, *ctx, amount)),
        r is Err ==> *final(ledger) == *old(ledger),
        r is Ok ==> deposit_applied(*old(ledger), *final(ledger), *ctx, amount),
        r is Ok ==> {
            let i = old(ledger).index_of(ctx.data_account@);
            let d = final(ledger).entries@[i].data@;
            &&& is_vault_data(d)
            &&& vault_balance(d) == vault_balance(old(ledger).entry(ctx.data_account@).data@) + amount
            &&& vault_admin(d) == vault_admin(old(ledger).entry(ctx.data_account@).data@)
        },
{
    let (i, t) = match load_account(ledger, &program.id, &ctx.data_account, AccountKind::Vault) {
        Ok(x) => x,
        Err(e) => {
            return Err(e);
        },
    };
    let vault = match t {
        TypedAccount::Vault(v) => v,
        TypedAccount::Profile(_) => {
            return Err(ErrorKind::TypeMismatch);
        },
    };
    let balance = match checked_add(vault.balance, amount) {
        Ok(b) => b,
        Err(e) => {
            return Err(e);
        },
    };
    let data = encode_balance(&ledger.entries[i].data, balance);
    proof {
        lemma_balance_round_trip(ledger.entries@[i as int].data@, balance);
        let before = ledger.entries@[i as int].data@;
        assert(vault_with_balance(before, balance).subrange(8, 40) =~= before.subrange(8, 40)) by {
            assert(vault_with_balance(before, balance).subrange(8, 40)
                =~= vault_with_balance(before, balance).subrange(0, 40).subrange(8, 40));
            assert(before.subrange(8, 40) =~= before.subrange(0, 40).subrange(8, 40));
        }
    }
    ledger.set_data(i, data);
    Ok(())
}

/// Ownership check: the account must exist and be controlled by the system.
pub fn owner_secure(ledger: &Ledger, program: &Program, ctx: &SecureOwnerContext) -> (r: Result<(), ErrorKind>)
    requires
        ledger.wf(),
    ensures
        r == outcome(owner_failure(*ledger, *program, *ctx)),
{
    match ledger.get(&ctx.token_account) {
        Some(entry) => verify_owner(entry, &program.system_id),
        None => Err(ErrorKind::AccountNotFound),
    }
}

/// Settings update: the configuration must be a vault of this program, the
/// admin must have signed, and the vault's admin field must name them.
pub fn role_secure(ledger: &Ledger, program: &Program, proofs: &ProofSet, ctx: &SecureRoleContext, new_settings: u64) -> (r: Result<(), ErrorKind>)
    requires
        ledger.wf(),
    ensures
        r == outcome(role_failure(*ledger, *program, *proofs, *ctx)),
{
    let (_, t) = match load_account(ledger, &program.id, &ctx.config, AccountKind::Vault) {
        Ok(x) => x,
        Err(e) => {
            return Err(e);
        },
    };
    match verify_signer(&ctx.admin, proofs) {
        Ok(()) => {},
        Err(e) => {
            return Err(e);
        },
    }
    verify_relationship(&t, RelationField::Admin, &ctx.admin)
}

/// Derived-address access: the account must sit at the canonical address
/// derived from `secure-seed` under this program, and be one of its vaults.
pub fn pda_secure(ledger: &Ledger, program: &Program, ctx: &SecurePdaContext) -> (r: Result<(), ErrorKind>)
    requires
        ledger.wf(),
    ensures
        r == outcome(pda_failure(*ledger, *program, *ctx)),
{
    let seeds = secure_seeds();
    match verify_derived(&program.id, &seeds, &ctx.pda_account) {
        Ok(_) => {},
        Err(e) => {
            return Err(e);
        },
    }
    match load_account(ledger, &program.id, &ctx.pda_account, AccountKind::Vault) {
        Ok(_) => Ok(()),
        Err(e) => Err(e),
    }
}

/// Profile update: the profile must be a profile of this program, its
/// authority must have signed and be the one the profile names; then the
/// name is replaced. On any failure the ledger is unchanged.
pub fn update_profile_secure(ledger: &mut Ledger, program: &Program, proofs: &ProofSet, ctx: &SecureType, name: Vec<u8>) -> (r: Result<(), ErrorKind>)
    requires
        old(ledger).wf(),
        name@.len() <= u32::MAX,
    ensures
        final(ledger).wf(),
        r == outcome(profile_failure(*old(ledger), *program, *proofs, *ctx)),
        r is Err ==> *final(ledger) == *old(ledger),
        r is Ok ==> profile_applied(*old(ledger), *final(ledger), *ctx, name@),
        r is Ok ==> {
            let d = final(ledger).entries@[old(ledger).index_of(ctx.profile@)].data@;
            &&& is_profile_data(d)
            &&& d.subrange(12, 12 + profile_name_len(d)) == name@
            &&& profile_authority(d) == ctx.authority@
        },
{
    let (i, t) = match load_account(ledger, &program.id, &ctx.profile, AccountKind::Profile) {
        Ok(x) => x,
        Err(e) => {
            return Err(e);
        },
    };
    match verify_signer(&ctx.authority, proofs) {
        Ok(()) => {},
        Err(e) => {
            return Err(e);
        },
    }
    match verify_relationship(&t, RelationField::Authority, &ctx.authority) {
        Ok(()) => {},
        Err(e) => {
            return Err(e);
        },
    }
    let profile = match t {
        TypedAccount::Profile(p) => p,
        TypedAccount::Vault(_) => {
            return Err(ErrorKind::TypeMismatch);
        },
    };
    let data = encode_profile(&name, &profile.authority);
    proof {
        lemma_profile_round_trip(name@, profile.authority@);
    }
    ledger.set_data(i, data);
    Ok(())
}

/// Runs the instruction's validators in order, stopping at the first that
/// fails, and applies its effect only when all pass.
pub fn dispatch(ledger: &mut Ledger, program: &Program, proofs: &ProofSet, instr: &Instruction) -> (r: Result<(), ErrorKind>)
    requires
        old(ledger).wf(),
        instr matches Instruction::UpdateProfile { name, .. } ==> name@.len() <= u32::MAX,
    ensures
        final(ledger).wf(),
        r == outcome(failure(*old(ledger), *program, *proofs, *instr)),
        r is Err ==> *final(ledger) == *old(ledger),
        r is Ok ==> applied(*old(ledger), *final(ledger), *instr),
{
    match instr {
        Instruction::Withdraw { accounts, amount } => withdraw_secure(ledger, program, proofs, accounts, *amount),
        Instruction::Deposit { accounts, amount } => overflow_secure(ledger, program, accounts, *amount),
        Instruction::CheckOwner { accounts } => owner_secure(ledger, program, accounts),
        Instruction::UpdateSettings { accounts, new_settings } => role_secure(ledger, program, proofs, accounts, *new_settings),
        Instruction::AccessDerived { accounts } => pda_secure(ledger, program, accounts),
        Instruction::UpdateProfile { accounts, name } => update_profile_secure(ledger, program, proofs, accounts, name.clone()),
    }
}

} // verus!
