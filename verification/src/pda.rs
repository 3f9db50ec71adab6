use vstd::prelude::*;

verus! {

/// Domain tag that keys a token's record address: the bytes of `"DEFIxNFT"`.
pub open spec fn record_domain_tag() -> Seq<u8> {
    seq![68u8, 69u8, 70u8, 73u8, 120u8, 78u8, 70u8, 84u8]
}

/// Domain tag that keys the shared update authority's address: the bytes of
/// `"update_authority"`.
pub open spec fn authority_domain_tag() -> Seq<u8> {
    seq![
        117u8, 112u8, 100u8, 97u8, 116u8, 101u8, 95u8, 97u8, 117u8, 116u8, 104u8, 111u8, 114u8,
        105u8, 116u8, 121u8,
    ]
}

/// The address and bump seed that `Pubkey::try_find_program_address` derives
/// from the given seeds and program id, or `None` when no bump yields a valid
/// address.
pub uninterp spec fn found_pda(seeds: Seq<Seq<u8>>, program_id: Seq<u8>) -> Option<(Seq<u8>, u8)>;

/// The address that `Pubkey::create_program_address` derives from the given
/// seeds and program id, or `None` when the seeds are rejected or the result
/// falls on the curve.
pub uninterp spec fn created_pda(seeds: Seq<Seq<u8>>, program_id: Seq<u8>) -> Option<Seq<u8>>;

/// Relies on `solana_program::pubkey::Pubkey::try_find_program_address`: the
/// returned address and bump seed are a deterministic function of the seeds
/// and the program id alone.
#[verifier::external_body]
pub(crate) fn find_pda(seeds: &Vec<Vec<u8>>, program_id: &[u8; 32]) -> (r: Option<([u8; 32], u8)>)
    ensures
        (match r {
            Some(p) => Some((p.0@, p.1)),
            None => None,
        }) == found_pda(seeds.deep_view(), program_id@),
{
    let seed_refs: Vec<&[u8]> = seeds.iter().map(|s| s.as_slice()).collect();
    let id = solana_program::pubkey::Pubkey::new_from_array(*program_id);
    solana_program::pubkey::Pubkey::try_find_program_address(seed_refs.as_slice(), &id)
        .map(|(p, b)| (p.to_bytes(), b))
}

/// Relies on `solana_program::pubkey::Pubkey::create_program_address`: the
/// returned address is a deterministic function of the seeds and the program
/// id alone.
#[verifier::external_body]
pub(crate) fn create_pda(seeds: &Vec<Vec<u8>>, program_id: &[u8; 32]) -> (r: Option<[u8; 32]>)
    ensures
        (match r {
            Some(a) => Some(a@),
            None => None,
        }) == created_pda(seeds.deep_view(), program_id@),
{
    let seed_refs: Vec<&[u8]> = seeds.iter().map(|s| s.as_slice()).collect();
    let id = solana_program::pubkey::Pubkey::new_from_array(*program_id);
    match solana_program::pubkey::Pubkey::create_program_address(seed_refs.as_slice(), &id) {
        Ok(p) => Some(p.to_bytes()),
        Err(_) => None,
    }
}

/// The record domain tag as bytes.
pub fn record_tag_bytes() -> (r: Vec<u8>)
    ensures
        r@ == record_domain_tag(),
{
    let mut v: Vec<u8> = Vec::new();
    v.push(68);
    v.push(69);
    v.push(70);
    v.push(73);
    v.push(120);
    v.push(78);
    v.push(70);
    v.push(84);
    proof {
        assert(v@ =~= record_domain_tag());
    }
    v
}

/// The authority domain tag as bytes.
pub fn authority_tag_bytes() -> (r: Vec<u8>)
    ensures
        r@ == authority_domain_tag(),
{
    let mut v: Vec<u8> = Vec::new();
    v.push(117);
    v.push(112);
    v.push(100);
    v.push(97);
    v.push(116);
    v.push(101);
    v.push(95);
    v.push(97);
    v.push(117);
    v.push(116);
    v.push(104);
    v.push(111);
    v.push(114);
    v.push(105);
    v.push(116);
    v.push(121);
    proof {
        assert(v@ =~= authority_domain_tag());
    }
    v
}

/// Copy a 32-byte identifier into an owned byte vector.
pub fn bytes32_to_vec(b: &[u8; 32]) -> (r: Vec<u8>)
    ensures
        r@ == b@,
{
    let mut v: Vec<u8> = Vec::new();
    let mut i: usize = 0;
    while i < 32
        invariant
            i <= 32,
            v@ == b@.take(i as int),
        decreases 32 - i,
    {
        v.push(b[i]);
        proof {
            assert(v@ =~= b@.take(i + 1 as int));
        }
        i = i + 1;
    }
    proof {
        assert(v@ =~= b@);
    }
    v
}

/// The seeds that derive a token's record address: the record domain tag
/// followed by the token identity.
pub fn record_seeds(mint: &[u8; 32]) -> (r: Vec<Vec<u8>>)
    ensures
        r.deep_view() == seq![record_domain_tag(), mint@],
{
    let mut seeds: Vec<Vec<u8>> = Vec::new();
    seeds.push(record_tag_bytes());
    seeds.push(bytes32_to_vec(mint));
    proof {
        assert(seeds.deep_view() =~~= seq![record_domain_tag(), mint@]);
    }
    seeds
}

/// The seeds that derive the shared update authority's address: the authority
/// domain tag alone.
pub fn authority_seeds() -> (r: Vec<Vec<u8>>)
    ensures
        r.deep_view() == seq![authority_domain_tag()],
{
    let mut seeds: Vec<Vec<u8>> = Vec::new();
    seeds.push(authority_tag_bytes());
    proof {
        assert(seeds.deep_view() =~~= seq![authority_domain_tag()]);
    }
    seeds
}

/// The seeds that re-derive the update authority from a stored bump seed: the
/// authority domain tag followed by the one-byte bump.
pub fn authority_seeds_with_bump(bump: u8) -> (r: Vec<Vec<u8>>)
    ensures
        r.deep_view() == seq![authority_domain_tag(), seq![bump]],
{
    let mut bump_seed: Vec<u8> = Vec::new();
    bump_seed.push(bump);
    let mut seeds: Vec<Vec<u8>> = Vec::new();
    seeds.push(authority_tag_bytes());
    seeds.push(bump_seed);
    proof {
        assert(seeds.deep_view() =~~= seq![authority_domain_tag(), seq![bump]]);
    }
    seeds
}

} // verus!
