use vstd::prelude::*;

use crate::descriptor::{trimmed, next_uri, advance_uri, DescriptorData};
use crate::errors::StageError;
use crate::pda::{authority_domain_tag, authority_seeds_with_bump, create_pda, created_pda};
use crate::record::NftPda;

verus! {

/// Whether the authority re-derived from the record's stored bump seed is
/// exactly the live update-authority address: the capability check that must
/// pass before the descriptor may be rewritten on the record's behalf.
pub open spec fn authority_matches(rec: NftPda, live_authority: Seq<u8>, program_id: Seq<u8>) -> bool {
    created_pda(seq![authority_domain_tag(), seq![rec.nft_authority_bump]], program_id) == Some(
        live_authority,
    )
}

/// Whether an advance may act at all: the record has been initialized and
/// the capability check passes.
pub open spec fn advance_permitted(rec: NftPda, live_authority: Seq<u8>, program_id: Seq<u8>) -> bool {
    rec.is_initialized && authority_matches(rec, live_authority, program_id)
}

/// Whether an advance of an initialized, authorized record actually moves:
/// below the ceiling it increments and rewrites, at the ceiling it is a
/// successful no-op.
pub open spec fn below_ceiling(rec: NftPda) -> bool {
    rec.level < 6
}

/// Advance a token's level by one and compute the descriptor rewrite.
///
/// Re-derives the update authority from the record's stored bump seed and
/// compares it against the live authority address before acting. Below the
/// ceiling, the record's level is incremented and the returned descriptor is
/// the input with exactly the URI's level suffix replaced; every other field
/// is returned untouched for the external rewrite. At the ceiling the call
/// succeeds without any change. On every failure the record is untouched.
pub fn level_up(
    record: &mut NftPda,
    descriptor: DescriptorData,
    live_authority: [u8; 32],
    program_id: [u8; 32],
) -> (r: Result<Option<DescriptorData>, StageError>)
    requires
        old(record).wf(),
    ensures
        final(record).wf(),
        final(record).level >= old(record).level,
        final(record).is_initialized == old(record).is_initialized,
        final(record).bump == old(record).bump,
        final(record).nft_authority_bump == old(record).nft_authority_bump,
        final(record).mint == old(record).mint,
        r is Err ==> *final(record) == *old(record),
        !old(record).is_initialized ==> r == Err::<Option<DescriptorData>, StageError>(
            StageError::RecordNotInitialized,
        ),
        old(record).is_initialized && !authority_matches(
            *old(record),
            live_authority@,
            program_id@,
        ) ==> r == Err::<Option<DescriptorData>, StageError>(
            StageError::SignatureDerivationMismatch,
        ),
        advance_permitted(*old(record), live_authority@, program_id@) && !below_ceiling(
            *old(record),
        ) ==> r == Ok::<Option<DescriptorData>, StageError>(None) && *final(record) == *old(
            record,
        ),
        advance_permitted(*old(record), live_authority@, program_id@) && below_ceiling(
            *old(record),
        ) && trimmed(descriptor.uri@).len() < 6 ==> r == Err::<
            Option<DescriptorData>,
            StageError,
        >(StageError::MalformedUriSuffix),
        advance_permitted(*old(record), live_authority@, program_id@) && below_ceiling(
            *old(record),
        ) && trimmed(descriptor.uri@).len() >= 6 ==> {
            &&& r matches Ok(Some(updated)) && {
                &&& updated.uri@ == next_uri(descriptor.uri@, (old(record).level + 1) as u8)
                &&& updated.name == descriptor.name
                &&& updated.symbol == descriptor.symbol
                &&& updated.seller_fee_basis_points == descriptor.seller_fee_basis_points
                &&& updated.creators == descriptor.creators
                &&& updated.collection == descriptor.collection
                &&& updated.uses == descriptor.uses
                &&& updated.primary_sale_happened == descriptor.primary_sale_happened
                &&& updated.is_mutable == descriptor.is_mutable
            }
            &&& final(record).level == old(record).level + 1
            &&& *final(record) == (NftPda { level: (old(record).level + 1) as u8, ..*old(record) })
        },
{
    if !record.is_initialized {
        return Err(StageError::RecordNotInitialized);
    }
    let auth_seeds = authority_seeds_with_bump(record.nft_authority_bump);
    let derived = create_pda(&auth_seeds, &program_id);
    let authority_ok = match derived {
        Some(address) => bytes32_eq(&address, &live_authority),
        None => false,
    };
    if !authority_ok {
        return Err(StageError::SignatureDerivationMismatch);
    }
    if record.level >= 6 {
        return Ok(None);
    }
    let new_level = record.level + 1;
    let DescriptorData {
        name,
        symbol,
        uri,
        seller_fee_basis_points,
        creators,
        collection,
        uses,
        primary_sale_happened,
        is_mutable,
    } = descriptor;
    let new_uri = match advance_uri(uri, new_level) {
        Ok(u) => u,
        Err(e) => {
            return Err(e);
        },
    };
    record.level = new_level;
    Ok(
        Some(
            DescriptorData {
                name,
                symbol,
                uri: new_uri,
                seller_fee_basis_points,
                creators,
                collection,
                uses,
                primary_sale_happened,
                is_mutable,
            },
        ),
    )
}

/// Compare two 32-byte identifiers.
fn bytes32_eq(a: &[u8; 32], b: &[u8; 32]) -> (r: bool)
    ensures
        r <==> a@ == b@,
{
    let mut i: usize = 0;
    while i < 32
        invariant
            i <= 32,
            forall|j: int| 0 <= j < i ==> a@[j] == b@[j],
        decreases 32 - i,
    {
        if a[i] != b[i] {
            return false;
        }
        i = i + 1;
    }
    proof {
        assert(a@ =~= b@);
    }
    true
}

} // verus!
