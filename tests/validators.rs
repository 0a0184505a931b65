use security_secrets::{
    checked_add, encode_balance, encode_profile, find_canonical, read_tag, secure_seeds, verify_bump,
    verify_derived, verify_owner, verify_relationship, verify_signer, verify_type, AccountKind,
    Address, ErrorKind, Ledger, ProofSet, RawEntry, RelationField, TypedAccount, PROFILE_TAG,
    VAULT_TAG,
};
use std::str::FromStr;
use anchor_lang::prelude::Pubkey;

fn addr(b: u8) -> Address {
    Address::new([b; 32])
}

fn vault_data(admin: &Address, balance: u64) -> Vec<u8> {
    let mut d = VAULT_TAG.to_le_bytes().to_vec();
    d.extend_from_slice(&admin.bytes);
    d.extend_from_slice(&balance.to_le_bytes());
    d
}

fn profile_data(name: &[u8], authority: &Address) -> Vec<u8> {
    let mut d = PROFILE_TAG.to_le_bytes().to_vec();
    d.extend_from_slice(&(name.len() as u32).to_le_bytes());
    d.extend_from_slice(name);
    d.extend_from_slice(&authority.bytes);
    d
}

fn program_key() -> Address {
    let k = Pubkey::from_str("3cGtRVL7vjPyNYqNvfdn97XoLc4Pv6v4RLruk5Rr9zL7").unwrap();
    Address::new(k.to_bytes())
}

#[test]
fn checked_add_exact_sum() {
    assert_eq!(checked_add(2, 3), Ok(5));
    assert_eq!(checked_add(0, 0), Ok(0));
    assert_eq!(checked_add(u64::MAX - 1, 1), Ok(u64::MAX));
    assert_eq!(checked_add(u64::MAX, 0), Ok(u64::MAX));
}

#[test]
fn checked_add_overflow() {
    assert_eq!(checked_add(u64::MAX, 1), Err(ErrorKind::ArithmeticOverflow));
    assert_eq!(checked_add(1, u64::MAX), Err(ErrorKind::ArithmeticOverflow));
    assert_eq!(checked_add(u64::MAX, u64::MAX), Err(ErrorKind::ArithmeticOverflow));
}

#[test]
fn type_tags_are_anchor_discriminators() {
    let h = anchor_lang::solana_program::hash::hash(b"account:Vault").to_bytes();
    let mut first = [0u8; 8];
    first.copy_from_slice(&h[..8]);
    assert_eq!(u64::from_le_bytes(first), VAULT_TAG);
    let h = anchor_lang::solana_program::hash::hash(b"account:UserProfile").to_bytes();
    first.copy_from_slice(&h[..8]);
    assert_eq!(u64::from_le_bytes(first), PROFILE_TAG);
}

#[test]
fn verify_type_decodes_vault() {
    let e = RawEntry { address: addr(1), controller: addr(9), data: vault_data(&addr(7), 1234) };
    match verify_type(&e, AccountKind::Vault) {
        Ok(TypedAccount::Vault(v)) => {
            assert_eq!(v.admin.bytes, [7u8; 32]);
            assert_eq!(v.balance, 1234);
        },
        _ => panic!("expected a vault"),
    }
}

#[test]
fn verify_type_decodes_profile() {
    let e = RawEntry { address: addr(1), controller: addr(9), data: profile_data(b"alice", &addr(4)) };
    match verify_type(&e, AccountKind::Profile) {
        Ok(TypedAccount::Profile(p)) => {
            assert_eq!(p.name, b"alice".to_vec());
            assert_eq!(p.authority.bytes, [4u8; 32]);
        },
        _ => panic!("expected a profile"),
    }
}

#[test]
fn verify_type_rejects_other_tag() {
    let profile = RawEntry { address: addr(1), controller: addr(9), data: profile_data(b"bob", &addr(4)) };
    assert!(matches!(verify_type(&profile, AccountKind::Vault), Err(ErrorKind::TypeMismatch)));
    let vault = RawEntry { address: addr(1), controller: addr(9), data: vault_data(&addr(4), 5) };
    assert!(matches!(verify_type(&vault, AccountKind::Profile), Err(ErrorKind::TypeMismatch)));
}

#[test]
fn verify_type_rejects_short_data() {
    let empty = RawEntry { address: addr(1), controller: addr(9), data: vec![] };
    assert!(matches!(verify_type(&empty, AccountKind::Vault), Err(ErrorKind::TypeMismatch)));
    let mut d = vault_data(&addr(4), 5);
    d.truncate(47);
    let cut = RawEntry { address: addr(1), controller: addr(9), data: d };
    assert!(matches!(verify_type(&cut, AccountKind::Vault), Err(ErrorKind::TypeMismatch)));
    let mut d = profile_data(b"carol", &addr(4));
    d.truncate(d.len() - 1);
    let cut = RawEntry { address: addr(1), controller: addr(9), data: d };
    assert!(matches!(verify_type(&cut, AccountKind::Profile), Err(ErrorKind::TypeMismatch)));
}

#[test]
fn read_tag_reads_prefix() {
    assert_eq!(read_tag(&vault_data(&addr(0), 0)), Some(VAULT_TAG));
    assert_eq!(read_tag(&vec![1, 2, 3]), None);
}

#[test]
fn verify_owner_checks_controller() {
    let e = RawEntry { address: addr(1), controller: addr(9), data: vec![] };
    assert_eq!(verify_owner(&e, &addr(9)), Ok(()));
    assert_eq!(verify_owner(&e, &addr(8)), Err(ErrorKind::OwnerMismatch));
}

#[test]
fn verify_signer_checks_membership() {
    let proofs = ProofSet::new(vec![addr(1), addr(2)]);
    assert_eq!(verify_signer(&addr(2), &proofs), Ok(()));
    assert_eq!(verify_signer(&addr(3), &proofs), Err(ErrorKind::MissingSignature));
    assert_eq!(verify_signer(&addr(1), &ProofSet::new(vec![])), Err(ErrorKind::MissingSignature));
}

#[test]
fn verify_relationship_compares_field() {
    let v = TypedAccount::Vault(security_secrets::Vault { admin: addr(5), balance: 0 });
    assert_eq!(verify_relationship(&v, RelationField::Admin, &addr(5)), Ok(()));
    assert_eq!(verify_relationship(&v, RelationField::Admin, &addr(6)), Err(ErrorKind::RelationshipMismatch));
    assert_eq!(verify_relationship(&v, RelationField::Authority, &addr(5)), Err(ErrorKind::RelationshipMismatch));
}

#[test]
fn encoders_write_fields() {
    let d = vault_data(&addr(3), 10);
    assert_eq!(encode_balance(&d, 77), vault_data(&addr(3), 77));
    assert_eq!(encode_profile(&b"dave".to_vec(), &addr(2)), profile_data(b"dave", &addr(2)));
}

#[test]
fn ledger_put_and_get() {
    let mut l = Ledger::new();
    assert!(l.get(&addr(1)).is_none());
    l.put(RawEntry { address: addr(1), controller: addr(9), data: vec![1] });
    l.put(RawEntry { address: addr(2), controller: addr(9), data: vec![2] });
    l.put(RawEntry { address: addr(1), controller: addr(9), data: vec![3] });
    assert_eq!(l.entries.len(), 2);
    assert_eq!(l.get(&addr(1)).unwrap().data, vec![3]);
    assert_eq!(l.get(&addr(2)).unwrap().data, vec![2]);
}

#[test]
fn canonical_matches_outside_derivation() {
    let p = program_key();
    let (expected, expected_bump) =
        Pubkey::find_program_address(&[b"secure-seed"], &Pubkey::new_from_array(p.bytes));
    let (a, b) = find_canonical(&p, &secure_seeds()).unwrap();
    assert_eq!(b, expected_bump);
    assert_eq!(a.bytes, expected.to_bytes());
    assert_ne!(a.bytes, p.bytes);
}

#[test]
fn derivation_is_deterministic() {
    let p = program_key();
    let first = find_canonical(&p, &secure_seeds()).unwrap();
    let second = find_canonical(&p, &secure_seeds()).unwrap();
    assert_eq!(first.0.bytes, second.0.bytes);
    assert_eq!(first.1, second.1);
    assert_eq!(verify_derived(&p, &secure_seeds(), &first.0), Ok(first.1));
    assert_eq!(verify_derived(&p, &secure_seeds(), &first.0), Ok(first.1));
}

#[test]
fn verify_derived_rejects_other_address() {
    let p = program_key();
    assert_eq!(verify_derived(&p, &secure_seeds(), &addr(1)), Err(ErrorKind::NonCanonicalAddress));
    assert_eq!(verify_derived(&p, &secure_seeds(), &p), Err(ErrorKind::NonCanonicalAddress));
}

#[test]
fn lower_bumps_rejected() {
    let p = program_key();
    let (a, b) = find_canonical(&p, &secure_seeds()).unwrap();
    for s in 0..b {
        assert!(matches!(verify_bump(&p, &secure_seeds(), s), Err(ErrorKind::NonCanonicalAddress)));
    }
    let ok = verify_bump(&p, &secure_seeds(), b).unwrap();
    assert_eq!(ok.bytes, a.bytes);
}

#[test]
fn claimed_bump_scenario() {
    let p = program_key();
    let (_, b) = find_canonical(&p, &secure_seeds()).unwrap();
    assert_eq!(b, 254);
    assert!(matches!(verify_bump(&p, &secure_seeds(), 200), Err(ErrorKind::NonCanonicalAddress)));
    let seeds = secure_seeds();
    let (claimed, _) = Pubkey::find_program_address(&[b"secure-seed"], &Pubkey::new_from_array([3u8; 32]));
    let claimed = Address::new(claimed.to_bytes());
    assert_eq!(verify_derived(&p, &seeds, &claimed), Err(ErrorKind::NonCanonicalAddress));
}

#[test]
fn too_many_seeds_have_no_address() {
    let p = program_key();
    let seeds: Vec<Vec<u8>> = (0..16).map(|i| vec![i as u8]).collect();
    assert!(find_canonical(&p, &seeds).is_none());
    let long: Vec<Vec<u8>> = vec![vec![0u8; 33]];
    assert!(find_canonical(&p, &long).is_none());
    assert_eq!(verify_derived(&p, &long, &addr(1)), Err(ErrorKind::NonCanonicalAddress));
}
