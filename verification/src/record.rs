use vstd::prelude::*;

use crate::errors::StageError;
use crate::pda::{find_pda, found_pda, record_seeds, authority_seeds};
use crate::pda::{record_domain_tag, authority_domain_tag};

verus! {

/// The durable per-token record: one exists per token identity, at an address
/// derived from the record domain tag and the identity.
#[derive(Clone, Copy, Debug, PartialEq, Eq)]
pub struct NftPda {
    /// True once the record has been created; guards re-initialization.
    pub is_initialized: bool,
    /// Bump seed that, with the record domain tag and the token identity,
    /// re-derives this record's own address.
    pub bump: u8,
    /// Bump seed that, with the authority domain tag, re-derives the shared
    /// update authority's address.
    pub nft_authority_bump: u8,
    /// Current progression stage, in `[1, 6]` once initialized.
    pub level: u8,
    /// Identity of the token this record belongs to; fixed at creation.
    pub mint: [u8; 32],
}

impl NftPda {
    /// An initialized record always carries a level inside the progression.
    pub open spec fn wf(self) -> bool {
        self.is_initialized ==> 1 <= self.level <= 6
    }

    /// The freshly created record for a token: level 1, both bump seeds
    /// stored for later re-derivation.
    pub open spec fn fresh(mint: [u8; 32], bump: u8, authority_bump: u8) -> NftPda {
        NftPda {
            is_initialized: true,
            bump: bump,
            nft_authority_bump: authority_bump,
            level: 1u8,
            mint: mint,
        }
    }
}

/// Whether a record for this token already exists and has been initialized,
/// so that creating again must leave it untouched.
pub open spec fn already_created(existing: Option<NftPda>) -> bool {
    existing matches Some(prior) && prior.is_initialized
}

/// Create the record for a token, or leave it as it stands.
///
/// Both the record address and the shared update authority's address are
/// re-derived from their domain tags; the bump seeds those derivations yield
/// are stored in the record. Creation is idempotent: an already-initialized
/// record is returned unchanged, never reset.
pub fn init(existing: Option<NftPda>, mint: [u8; 32], program_id: [u8; 32]) -> (r: Result<
    NftPda,
    StageError,
>)
    requires
        existing matches Some(e) ==> e.wf(),
    ensures
        r is Err <==> (found_pda(seq![record_domain_tag(), mint@], program_id@) is None
            || found_pda(seq![authority_domain_tag()], program_id@) is None),
        r matches Err(e) ==> e == StageError::AddressDerivationFailed,
        r matches Ok(rec) ==> {
            &&& rec.wf()
            &&& already_created(existing) ==> rec == existing->0
            &&& !already_created(existing) ==> {
                &&& rec.is_initialized
                &&& rec.level == 1
                &&& rec.mint == mint
                &&& found_pda(seq![record_domain_tag(), mint@], program_id@) matches Some(f)
                    && rec.bump == f.1
                &&& found_pda(seq![authority_domain_tag()], program_id@) matches Some(a)
                    && rec.nft_authority_bump == a.1
            }
        },
{
    let rec_seeds = record_seeds(&mint);
    let rec_derived = find_pda(&rec_seeds, &program_id);
    let auth_seeds = authority_seeds();
    let auth_derived = find_pda(&auth_seeds, &program_id);
    match (rec_derived, auth_derived) {
        (Some(rec_found), Some(auth_found)) => {
            match existing {
                Some(prior) => {
                    if prior.is_initialized {
                        Ok(prior)
                    } else {
                        Ok(NftPda::fresh_record(mint, rec_found.1, auth_found.1))
                    }
                },
                None => Ok(NftPda::fresh_record(mint, rec_found.1, auth_found.1)),
            }
        },
        _ => Err(StageError::AddressDerivationFailed),
    }
}

/// Leading tag that versions the stored record layout.
pub open spec fn record_tag() -> Seq<u8> {
    seq![239u8, 134u8, 203u8, 232u8, 44u8, 102u8, 251u8, 106u8]
}

/// The fixed 44-byte stored form of a record: tag, initialized flag, level,
/// record bump, authority bump, token identity.
pub open spec fn record_bytes(rec: NftPda) -> Seq<u8> {
    record_tag() + seq![
        if rec.is_initialized {
            1u8
        } else {
            0u8
        },
        rec.level,
        rec.bump,
        rec.nft_authority_bump,
    ] + rec.mint@
}

/// Whether a byte string is the stored form of some record: right length,
/// right tag, a boolean flag byte, and a level inside the progression
/// whenever the flag is set.
pub open spec fn valid_record_bytes(bytes: Seq<u8>) -> bool {
    &&& bytes.len() == 44
    &&& bytes.take(8) == record_tag()
    &&& (bytes[8] == 0u8 || bytes[8] == 1u8)
    &&& (bytes[8] == 1u8 ==> 1 <= bytes[9] <= 6)
}

/// The record layout tag as bytes.
fn record_tag_bytes_stored() -> (r: Vec<u8>)
    ensures
        r@ == record_tag(),
{
    let mut v: Vec<u8> = Vec::new();
    v.push(239);
    v.push(134);
    v.push(203);
    v.push(232);
    v.push(44);
    v.push(102);
    v.push(251);
    v.push(106);
    proof {
        assert(v@ =~= record_tag());
    }
    v
}

/// Where each field of a record sits inside its stored form.
proof fn lemma_record_bytes_fields(rec: NftPda)
    ensures
        record_bytes(rec).len() == 44,
        record_bytes(rec)[8] == (if rec.is_initialized {
            1u8
        } else {
            0u8
        }),
        record_bytes(rec)[9] == rec.level,
        record_bytes(rec)[10] == rec.bump,
        record_bytes(rec)[11] == rec.nft_authority_bump,
        forall|i: int| 0 <= i < 32 ==> record_bytes(rec)[12 + i] == rec.mint@[i],
{
    assert(rec.mint@.len() == 32);
}

/// Law: the stored form is lossless — two records with the same bytes are
/// the same record.
pub proof fn lemma_record_bytes_injective(a: NftPda, b: NftPda)
    requires
        record_bytes(a) == record_bytes(b),
    ensures
        a == b,
{
    lemma_record_bytes_fields(a);
    lemma_record_bytes_fields(b);
    assert(a.is_initialized == b.is_initialized) by {
        assert(record_bytes(a)[8] == record_bytes(b)[8]);
    }
    assert(a.mint =~= b.mint) by {
        assert forall|i: int| 0 <= i < 32 implies a.mint@[i] == b.mint@[i] by {
            assert(record_bytes(a)[12 + i] == record_bytes(b)[12 + i]);
        }
    }
}

impl NftPda {
    /// Encode the record into its fixed 44-byte stored form.
    pub fn to_bytes(&self) -> (r: Vec<u8>)
        ensures
            r@ == record_bytes(*self),
            valid_record_bytes(r@) <==> self.wf(),
    {
        let mut out: Vec<u8> = Vec::new();
        out.push(239);
        out.push(134);
        out.push(203);
        out.push(232);
        out.push(44);
        out.push(102);
        out.push(251);
        out.push(106);
        out.push(if self.is_initialized {
            1
        } else {
            0
        });
        out.push(self.level);
        out.push(self.bump);
        out.push(self.nft_authority_bump);
        let mut i: usize = 0;
        while i < 32
            invariant
                i <= 32,
                out@.len() == 12 + i,
                out@ == record_bytes(*self).take(12 + i as int),
            decreases 32 - i,
        {
            out.push(self.mint[i]);
            proof {
                assert(out@ =~= record_bytes(*self).take(12 + (i + 1) as int));
            }
            i = i + 1;
        }
        proof {
            assert(out@ =~= record_bytes(*self));
            assert(record_bytes(*self).take(8) =~= record_tag());
        }
        out
    }

    /// Decode a record from its stored form; rejects a byte string whose
    /// length, tag, flag byte or level is not one the encoder produces.
    pub fn from_bytes(bytes: &Vec<u8>) -> (r: Option<NftPda>)
        ensures
            r is Some <==> valid_record_bytes(bytes@),
            r matches Some(rec) ==> rec.wf() && record_bytes(rec) == bytes@,
    {
        if bytes.len() != 44 {
            return None;
        }
        let tag = record_tag_bytes_stored();
        let mut i: usize = 0;
        while i < 8
            invariant
                i <= 8,
                bytes@.len() == 44,
                tag@ == record_tag(),
                forall|j: int| 0 <= j < i ==> bytes@[j] == record_tag()[j],
            decreases 8 - i,
        {
            if bytes[i] != tag[i] {
                proof {
                    assert(bytes@.take(8) != record_tag()) by {
                        assert(bytes@.take(8)[i as int] != record_tag()[i as int]);
                    }
                }
                return None;
            }
            i = i + 1;
        }
        proof {
            assert(bytes@.take(8) =~= record_tag());
        }
        let flag = bytes[8];
        if flag != 0 && flag != 1 {
            return None;
        }
        let level = bytes[9];
        if flag == 1 && (level < 1 || level > 6) {
            return None;
        }
        let mut mint: [u8; 32] = [0; 32];
        let mut k: usize = 0;
        while k < 32
            invariant
                k <= 32,
                bytes@.len() == 44,
                forall|j: int| 0 <= j < k ==> mint@[j] == bytes@[12 + j],
            decreases 32 - k,
        {
            mint[k] = bytes[12 + k];
            k = k + 1;
        }
        let rec = NftPda {
            is_initialized: flag == 1,
            bump: bytes[10],
            nft_authority_bump: bytes[11],
            level: level,
            mint: mint,
        };
        proof {
            assert(record_bytes(rec) =~= bytes@);
        }
        Some(rec)
    }

    /// Build the record that `fresh` describes.
    pub fn fresh_record(mint: [u8; 32], bump: u8, authority_bump: u8) -> (r: NftPda)
        ensures
            r == NftPda::fresh(mint, bump, authority_bump),
    {
        NftPda {
            is_initialized: true,
            bump: bump,
            nft_authority_bump: authority_bump,
            level: 1,
            mint: mint,
        }
    }
}

} // verus!
