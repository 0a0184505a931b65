use vstd::prelude::*;
use vstd::bytes::{
    spec_u32_from_le_bytes, spec_u32_to_le_bytes, spec_u64_from_le_bytes, spec_u64_to_le_bytes,
    u32_from_le_bytes, u32_to_le_bytes, u64_from_le_bytes, u64_to_le_bytes,
};
use vstd::bytes::{lemma_auto_spec_u32_to_from_le_bytes, lemma_auto_spec_u64_to_from_le_bytes};
use vstd::slice::slice_subrange;
use crate::address::Address;
use crate::error::ErrorKind;

verus! {

/// Type tag of vault accounts: the first eight bytes of SHA-256 of
/// `account:Vault`, read little-endian.
pub const VAULT_TAG: u64 = 8607953397882554579;

/// Type tag of profile accounts: the first eight bytes of SHA-256 of
/// `account:UserProfile`, read little-endian.
pub const PROFILE_TAG: u64 = 13983031102394541344;

/// Size in bytes of an encoded vault: tag, admin, balance.
pub const VAULT_LEN: usize = 48;

/// A ledger entry as stored: where it lives, who controls it, and its bytes.
/// The bytes start with an eight-byte type tag; the schema follows.
#[derive(Debug, Clone)]
pub struct RawEntry {
    pub address: Address,
    pub controller: Address,
    pub data: Vec<u8>,
}

/// Vault schema: an administrator and a balance.
#[derive(Debug, Clone, Copy)]
pub struct Vault {
    pub admin: Address,
    pub balance: u64,
}

/// Profile schema: a display name (UTF-8 bytes) and the authority over it.
#[derive(Debug, Clone)]
pub struct UserProfile {
    pub name: Vec<u8>,
    pub authority: Address,
}

/// The schemas an entry can be decoded as.
#[derive(Debug, Clone, Copy, PartialEq, Eq, Structural)]
pub enum AccountKind {
    Vault,
    Profile,
}

/// An entry decoded under the schema its tag names.
#[derive(Debug, Clone)]
pub enum TypedAccount {
    Vault(Vault),
    Profile(UserProfile),
}

/// The account fields that can name another account.
#[derive(Debug, Clone, Copy, PartialEq, Eq, Structural)]
pub enum RelationField {
    /// `Vault::admin`
    Admin,
    /// `UserProfile::authority`
    Authority,
}

impl AccountKind {
    pub open spec fn spec_tag(self) -> u64 {
        match self {
            AccountKind::Vault => VAULT_TAG,
            AccountKind::Profile => PROFILE_TAG,
        }
    }

    /// The type tag that entries of this kind carry.
    pub fn tag(&self) -> (r: u64)
        ensures
            r == self.spec_tag(),
    {
        match self {
            AccountKind::Vault => VAULT_TAG,
            AccountKind::Profile => PROFILE_TAG,
        }
    }
}

/// The tag in the first eight bytes of an entry's data.
pub open spec fn tag_prefix(data: Seq<u8>) -> u64 {
    spec_u64_from_le_bytes(data.subrange(0, 8))
}

/// The data starts with the tag of `kind`.
pub open spec fn has_tag(data: Seq<u8>, kind: AccountKind) -> bool {
    data.len() >= 8 && tag_prefix(data) == kind.spec_tag()
}

/// The data holds a complete vault.
pub open spec fn is_vault_data(data: Seq<u8>) -> bool {
    has_tag(data, AccountKind::Vault) && data.len() >= VAULT_LEN
}

/// `v` is the vault that the data holds.
pub open spec fn vault_decodes(data: Seq<u8>, v: Vault) -> bool {
    &&& is_vault_data(data)
    &&& v.admin@ == data.subrange(8, 40)
    &&& v.balance == spec_u64_from_le_bytes(data.subrange(40, 48))
}

/// Length of the name stored in profile data.
pub open spec fn profile_name_len(data: Seq<u8>) -> int {
    spec_u32_from_le_bytes(data.subrange(8, 12)) as int
}

/// The data holds a complete profile.
pub open spec fn is_profile_data(data: Seq<u8>) -> bool {
    &&& has_tag(data, AccountKind::Profile)
    &&& data.len() >= 12
    &&& 12 + profile_name_len(data) + 32 <= data.len()
}

/// `p` is the profile that the data holds.
pub open spec fn profile_decodes(data: Seq<u8>, p: UserProfile) -> bool {
    let n = profile_name_len(data);
    &&& is_profile_data(data)
    &&& p.name@ == data.subrange(12, 12 + n)
    &&& p.authority@ == data.subrange(12 + n, 12 + n + 32)
}

/// The data holds a complete account of `kind`.
pub open spec fn is_kind_data(data: Seq<u8>, kind: AccountKind) -> bool {
    match kind {
        AccountKind::Vault => is_vault_data(data),
        AccountKind::Profile => is_profile_data(data),
    }
}

/// `t` is the account of `kind` that the data holds.
pub open spec fn decodes_as(data: Seq<u8>, kind: AccountKind, t: TypedAccount) -> bool {
    match (kind, t) {
        (AccountKind::Vault, TypedAccount::Vault(v)) => vault_decodes(data, v),
        (AccountKind::Profile, TypedAccount::Profile(p)) => profile_decodes(data, p),
        _ => false,
    }
}

/// The address that `field` of the account holds, if it has that field.
pub open spec fn relation_target(t: TypedAccount, field: RelationField) -> Option<Seq<u8>> {
    match (t, field) {
        (TypedAccount::Vault(v), RelationField::Admin) => Some(v.admin@),
        (TypedAccount::Profile(p), RelationField::Authority) => Some(p.authority@),
        _ => None,
    }
}

/// Copies 32 bytes starting at `start` into an address.
fn read_address(data: &Vec<u8>, start: usize) -> (r: Address)
    requires
        start + 32 <= data@.len(),
    ensures
        r@ == data@.subrange(start as int, start + 32),
{
    let mut bytes: [u8; 32] = [0u8; 32];
    let mut i: usize = 0;
    while i < 32
        invariant
            i <= 32,
            start + 32 <= data.len(),
            forall|j: int| 0 <= j < i ==> bytes@[j] == data@[start + j],
        decreases 32 - i,
    {
        bytes[i] = data[start + i];
        i = i + 1;
    }
    assert(bytes@ =~= data@.subrange(start as int, start + 32));
    Address { bytes }
}

/// Copies the bytes in `start..end`.
pub(crate) fn copy_range(data: &Vec<u8>, start: usize, end: usize) -> (r: Vec<u8>)
    requires
        start <= end <= data@.len(),
    ensures
        r@ == data@.subrange(start as int, end as int),
{
    let mut out: Vec<u8> = Vec::new();
    let mut i: usize = start;
    while i < end
        invariant
            start <= i <= end <= data@.len(),
            out@ == data@.subrange(start as int, i as int),
        decreases end - i,
    {
        out.push(data[i]);
        i = i + 1;
        assert(out@ =~= data@.subrange(start as int, i as int));
    }
    out
}

/// Reads the tag from the first eight bytes, if there are eight.
pub fn read_tag(data: &Vec<u8>) -> (r: Option<u64>)
    ensures
        data@.len() >= 8 ==> r == Some(tag_prefix(data@)),
        data@.len() < 8 ==> r is None,
{
    if data.len() < 8 {
        None
    } else {
        let s = slice_subrange(data.as_slice(), 0, 8);
        Some(u64_from_le_bytes(s))
    }
}

/// Decodes the entry as a vault, which its tag must already name.
fn decode_vault(data: &Vec<u8>) -> (r: Option<Vault>)
    requires
        has_tag(data@, AccountKind::Vault),
    ensures
        r is Some <==> is_vault_data(data@),
        r matches Some(v) ==> vault_decodes(data@, v),
{
    if data.len() < VAULT_LEN {
        return None;
    }
    let admin = read_address(data, 8);
    let balance = u64_from_le_bytes(slice_subrange(data.as_slice(), 40, 48));
    Some(Vault { admin, balance })
}

/// Decodes the entry as a profile, which its tag must already name.
fn decode_profile(data: &Vec<u8>) -> (r: Option<UserProfile>)
    requires
        has_tag(data@, AccountKind::Profile),
    ensures
        r is Some <==> is_profile_data(data@),
        r matches Some(p) ==> profile_decodes(data@, p),
{
    if data.len() < 12 {
        return None;
    }
    let n = u32_from_le_bytes(slice_subrange(data.as_slice(), 8, 12)) as usize;
    if n > data.len() - 12 || data.len() - 12 - n < 32 {
        return None;
    }
    let name = copy_range(data, 12, 12 + n);
    let authority = read_address(data, 12 + n);
    Some(UserProfile { name, authority })
}

/// Checks the entry's type tag against `expected` before reading anything
/// else, then decodes the payload under that schema alone.
pub fn verify_type(entry: &RawEntry, expected: AccountKind) -> (r: Result<TypedAccount, ErrorKind>)
    ensures
        r is Ok <==> is_kind_data(entry.data@, expected),
        r matches Ok(t) ==> decodes_as(entry.data@, expected, t),
        r is Err ==> r == Err::<TypedAccount, ErrorKind>(ErrorKind::TypeMismatch),
        !has_tag(entry.data@, expected) ==> r == Err::<TypedAccount, ErrorKind>(ErrorKind::TypeMismatch),
{
    let tag = read_tag(&entry.data);
    match tag {
        None => Err(ErrorKind::TypeMismatch),
        Some(t) => {
            if t != expected.tag() {
                return Err(ErrorKind::TypeMismatch);
            }
            match expected {
                AccountKind::Vault => match decode_vault(&entry.data) {
                    Some(v) => Ok(TypedAccount::Vault(v)),
                    None => Err(ErrorKind::TypeMismatch),
                },
                AccountKind::Profile => match decode_profile(&entry.data) {
                    Some(p) => Ok(TypedAccount::Profile(p)),
                    None => Err(ErrorKind::TypeMismatch),
                },
            }
        },
    }
}

/// Accepts the entry only if `expected` controls it.
pub fn verify_owner(entry: &RawEntry, expected: &Address) -> (r: Result<(), ErrorKind>)
    ensures
        r == (if entry.controller@ == expected@ {
            Ok::<(), ErrorKind>(())
        } else {
            Err(ErrorKind::OwnerMismatch)
        }),
{
    if entry.controller.same_as(expected) {
        Ok(())
    } else {
        Err(ErrorKind::OwnerMismatch)
    }
}

/// Accepts only if `field` of `account` holds the address `other`.
pub fn verify_relationship(account: &TypedAccount, field: RelationField, other: &Address) -> (r: Result<(), ErrorKind>)
    ensures
        r == (if relation_target(*account, field) == Some(other@) {
            Ok::<(), ErrorKind>(())
        } else {
            Err(ErrorKind::RelationshipMismatch)
        }),
{
    let target = match (account, field) {
        (TypedAccount::Vault(v), RelationField::Admin) => &v.admin,
        (TypedAccount::Profile(p), RelationField::Authority) => &p.authority,
        _ => {
            return Err(ErrorKind::RelationshipMismatch);
        },
    };
    if target.same_as(other) {
        Ok(())
    } else {
        Err(ErrorKind::RelationshipMismatch)
    }
}

/// Vault data with its balance field replaced; every other byte is kept.
pub open spec fn vault_with_balance(data: Seq<u8>, balance: u64) -> Seq<u8> {
    data.subrange(0, 40) + spec_u64_to_le_bytes(balance) + data.subrange(48, data.len() as int)
}

/// The encoding of a profile: tag, name length, name, authority.
pub open spec fn profile_bytes(name: Seq<u8>, authority: Seq<u8>) -> Seq<u8> {
    spec_u64_to_le_bytes(PROFILE_TAG) + spec_u32_to_le_bytes(name.len() as u32) + name + authority
}

/// Writing a balance into vault data keeps it a vault with the same tag and
/// admin, and the balance then reads back as the one written.
pub proof fn lemma_balance_round_trip(data: Seq<u8>, balance: u64)
    requires
        is_vault_data(data),
    ensures
        is_vault_data(vault_with_balance(data, balance)),
        vault_with_balance(data, balance).subrange(0, 40) == data.subrange(0, 40),
        spec_u64_from_le_bytes(vault_with_balance(data, balance).subrange(40, 48)) == balance,
        vault_with_balance(data, balance).len() == data.len(),
{
    lemma_auto_spec_u64_to_from_le_bytes();
    let d = vault_with_balance(data, balance);
    assert(d.subrange(0, 40) =~= data.subrange(0, 40));
    assert(d.subrange(0, 8) =~= data.subrange(0, 8));
    assert(d.subrange(40, 48) =~= spec_u64_to_le_bytes(balance));
}

/// An encoded profile decodes as a profile with the same name and authority.
pub proof fn lemma_profile_round_trip(name: Seq<u8>, authority: Seq<u8>)
    requires
        name.len() <= u32::MAX,
        authority.len() == 32,
    ensures
        is_profile_data(profile_bytes(name, authority)),
        profile_name_len(profile_bytes(name, authority)) == name.len(),
        ({
            let d = profile_bytes(name, authority);
            let n = name.len() as int;
            &&& d.subrange(12, 12 + n) == name
            &&& d.subrange(12 + n, 12 + n + 32) == authority
        }),
{
    lemma_auto_spec_u64_to_from_le_bytes();
    lemma_auto_spec_u32_to_from_le_bytes();
    let d = profile_bytes(name, authority);
    let n = name.len() as int;
    assert(d.subrange(0, 8) =~= spec_u64_to_le_bytes(PROFILE_TAG));
    assert(d.subrange(8, 12) =~= spec_u32_to_le_bytes(n as u32));
    assert(d.subrange(12, 12 + n) =~= name);
    assert(d.subrange(12 + n, 12 + n + 32) =~= authority);
}

/// Writes a new balance into vault data.
pub fn encode_balance(data: &Vec<u8>, balance: u64) -> (r: Vec<u8>)
    requires
        is_vault_data(data@),
    ensures
        r@ == vault_with_balance(data@, balance),
{
    let mut out = copy_range(data, 0, 40);
    let mut mid = u64_to_le_bytes(balance);
    let mut tail = copy_range(data, 48, data.len());
    out.append(&mut mid);
    out.append(&mut tail);
    out
}

/// Encodes a profile with the given name and authority.
pub fn encode_profile(name: &Vec<u8>, authority: &Address) -> (r: Vec<u8>)
    requires
        name@.len() <= u32::MAX,
    ensures
        r@ == profile_bytes(name@, authority@),
{
    let mut out = u64_to_le_bytes(PROFILE_TAG);
    let mut len = u32_to_le_bytes(name.len() as u32);
    let mut body = copy_range(name, 0, name.len());
    assert(body@ =~= name@);
    let mut auth = copy_range_array(&authority.bytes);
    out.append(&mut len);
    out.append(&mut body);
    out.append(&mut auth);
    out
}

/// Copies an address's bytes into a vector.
fn copy_range_array(bytes: &[u8; 32]) -> (r: Vec<u8>)
    ensures
        r@ == bytes@,
{
    let mut out: Vec<u8> = Vec::new();
    let mut i: usize = 0;
    while i < 32
        invariant
            i <= 32,
            out@ == bytes@.subrange(0, i as int),
        decreases 32 - i,
    {
        out.push(bytes[i]);
        i = i + 1;
        assert(out@ =~= bytes@.subrange(0, i as int));
    }
    assert(bytes@.subrange(0, 32) =~= bytes@);
    out
}

} // verus!
