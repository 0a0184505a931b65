use vstd::prelude::*;
use anchor_lang::prelude::Pubkey;
use crate::address::Address;
use crate::error::ErrorKind;

verus! {

broadcast use vstd::std_specs::vec::group_vec_axioms;

/// The address that `Pubkey::create_program_address` derives from a seed list
/// and a controller, or `None` where it refuses them.
pub uninterp spec fn program_address_of(seeds: Seq<Seq<u8>>, controller: Seq<u8>) -> Option<Seq<u8>>;

/// Relies on `Pubkey::create_program_address`: hashes the seeds and the
/// controller into an address, and refuses (here: `None`) more than sixteen
/// seeds, a seed longer than thirty-two bytes, or a hash that is a valid
/// curve point.
#[verifier::external_body]
fn create_program_address(seeds: &Vec<Vec<u8>>, controller: &Address) -> (r: Option<Address>)
    ensures
        r matches Some(a) ==> program_address_of(seeds.deep_view(), controller@) == Some(a@),
        r is None ==> program_address_of(seeds.deep_view(), controller@) is None,
{
    let parts: Vec<&[u8]> = seeds.iter().map(|s| s.as_slice()).collect();
    let program_id = Pubkey::new_from_array(controller.bytes);
    Pubkey::create_program_address(&parts, &program_id).ok().map(|k| Address { bytes: k.to_bytes() })
}

/// The seed list with the one-byte suffix appended as a final seed.
pub open spec fn with_bump(seeds: Seq<Seq<u8>>, bump: u8) -> Seq<Seq<u8>> {
    seeds.push(seq![bump])
}

/// The address derived with a given suffix, if that suffix yields one.
pub open spec fn address_with_bump(controller: Seq<u8>, seeds: Seq<Seq<u8>>, bump: u8) -> Option<Seq<u8>> {
    program_address_of(with_bump(seeds, bump), controller)
}

/// The suffix yields an address (it does not land on a valid key).
pub open spec fn bump_valid(controller: Seq<u8>, seeds: Seq<Seq<u8>>, bump: u8) -> bool {
    address_with_bump(controller, seeds, bump) is Some
}

/// The suffix is the highest one that yields an address.
pub open spec fn is_canonical_bump(controller: Seq<u8>, seeds: Seq<Seq<u8>>, bump: u8) -> bool {
    &&& bump_valid(controller, seeds, bump)
    &&& forall|c: u8| c > bump ==> !bump_valid(controller, seeds, c)
}

/// Scans the suffixes from 255 down to 0 and returns the first that yields
/// an address, with that address; `None` when no suffix does.
pub fn find_canonical(controller: &Address, seeds: &Vec<Vec<u8>>) -> (r: Option<(Address, u8)>)
    ensures
        r matches Some((a, b)) ==> {
            &&& is_canonical_bump(controller@, seeds.deep_view(), b)
            &&& address_with_bump(controller@, seeds.deep_view(), b) == Some(a@)
        },
        r is None ==> forall|b: u8| !bump_valid(controller@, seeds.deep_view(), b),
{
    let mut next: u16 = 256;
    while next > 0
        invariant
            next <= 256,
            forall|c: u8| c >= next ==> !bump_valid(controller@, seeds.deep_view(), c),
        decreases next,
    {
        let bump = (next - 1) as u8;
        let mut all = seeds.clone();
        proof {
            assert(all.deep_view() =~= seeds.deep_view());
        }
        let mut last: Vec<u8> = Vec::new();
        last.push(bump);
        let ghost before = all;
        all.push(last);
        proof {
            assert(last@ =~= seq![bump]);
            assert(all@ == before@.push(last));
            assert(all.deep_view().len() == seeds.deep_view().len() + 1);
            assert forall|i: int| 0 <= i < all.deep_view().len() implies all.deep_view()[i]
                == with_bump(seeds.deep_view(), bump)[i] by {
                if i < seeds.deep_view().len() {
                    assert(all.deep_view()[i] == before.deep_view()[i]);
                }
            }
            assert(all.deep_view() =~= with_bump(seeds.deep_view(), bump));
        }
        match create_program_address(&all, controller) {
            Some(a) => {
                return Some((a, bump));
            },
            None => {},
        }
        next = next - 1;
    }
    None
}

/// Two canonical suffixes for the same controller and seeds are the same
/// suffix, and so name the same address: derivation is deterministic.
pub proof fn lemma_canonical_unique(controller: Seq<u8>, seeds: Seq<Seq<u8>>, b1: u8, b2: u8)
    requires
        is_canonical_bump(controller, seeds, b1),
        is_canonical_bump(controller, seeds, b2),
    ensures
        b1 == b2,
        address_with_bump(controller, seeds, b1) == address_with_bump(controller, seeds, b2),
{
}

/// Recomputes the canonical derived address for `controller` and `seeds` and
/// accepts `claimed` only if it is that address; returns the canonical suffix.
pub fn verify_derived(controller: &Address, seeds: &Vec<Vec<u8>>, claimed: &Address) -> (r: Result<u8, ErrorKind>)
    ensures
        r matches Ok(b) ==> {
            &&& is_canonical_bump(controller@, seeds.deep_view(), b)
            &&& address_with_bump(controller@, seeds.deep_view(), b) == Some(claimed@)
        },
        r is Err ==> {
            &&& r == Err::<u8, ErrorKind>(ErrorKind::NonCanonicalAddress)
            &&& forall|b: u8| is_canonical_bump(controller@, seeds.deep_view(), b)
                ==> address_with_bump(controller@, seeds.deep_view(), b) != Some(claimed@)
        },
{
    match find_canonical(controller, seeds) {
        Some((a, b)) => {
            if a.same_as(claimed) {
                Ok(b)
            } else {
                proof {
                    assert forall|c: u8| is_canonical_bump(controller@, seeds.deep_view(), c)
                        implies address_with_bump(controller@, seeds.deep_view(), c) != Some(claimed@) by {
                        lemma_canonical_unique(controller@, seeds.deep_view(), b, c);
                    }
                }
                Err(ErrorKind::NonCanonicalAddress)
            }
        },
        None => Err(ErrorKind::NonCanonicalAddress),
    }
}

/// Checks a caller's claimed suffix against the recomputed canonical one and
/// returns the canonical address; the claim is never taken on trust.
pub fn verify_bump(controller: &Address, seeds: &Vec<Vec<u8>>, claimed_bump: u8) -> (r: Result<Address, ErrorKind>)
    ensures
        r matches Ok(a) ==> {
            &&& is_canonical_bump(controller@, seeds.deep_view(), claimed_bump)
            &&& address_with_bump(controller@, seeds.deep_view(), claimed_bump) == Some(a@)
        },
        r is Err <==> !is_canonical_bump(controller@, seeds.deep_view(), claimed_bump),
        r is Err ==> r == Err::<Address, ErrorKind>(ErrorKind::NonCanonicalAddress),
{
    match find_canonical(controller, seeds) {
        Some((a, b)) => {
            if b == claimed_bump {
                Ok(a)
            } else {
                proof {
                    if is_canonical_bump(controller@, seeds.deep_view(), claimed_bump) {
                        lemma_canonical_unique(controller@, seeds.deep_view(), b, claimed_bump);
                    }
                }
                Err(ErrorKind::NonCanonicalAddress)
            }
        },
        None => Err(ErrorKind::NonCanonicalAddress),
    }
}

/// A claimed suffix below the canonical one is always rejected.
pub proof fn lemma_lower_bump_rejected(controller: Seq<u8>, seeds: Seq<Seq<u8>>, canonical: u8, claimed: u8)
    requires
        is_canonical_bump(controller, seeds, canonical),
        claimed < canonical,
    ensures
        !is_canonical_bump(controller, seeds, claimed),
{
}

} // verus!
