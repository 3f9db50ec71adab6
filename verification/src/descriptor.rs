use vstd::prelude::*;

use crate::errors::StageError;

verus! {

/// One creator entry carried through a descriptor rewrite untouched.
#[derive(Clone, Debug, PartialEq, Eq)]
pub struct Creator {
    pub address: [u8; 32],
    pub verified: bool,
    pub share: u8,
}

/// Collection membership carried through a descriptor rewrite untouched.
#[derive(Clone, Debug, PartialEq, Eq)]
pub struct Collection {
    pub verified: bool,
    pub key: [u8; 32],
}

/// How the remaining uses of a token are consumed.
#[derive(Clone, Copy, Debug, PartialEq, Eq)]
pub enum UseMethod {
    Burn,
    Multiple,
    Single,
}

/// Usage counters carried through a descriptor rewrite untouched.
#[derive(Clone, Copy, Debug, PartialEq, Eq)]
pub struct Uses {
    pub use_method: UseMethod,
    pub remaining: u64,
    pub total: u64,
}

/// The externally-owned descriptor contents, as plain values: the URI that
/// names the authoritative off-chain file, and the passthrough fields that
/// every rewrite must preserve byte for byte. String fields are byte vectors
/// because the external storage format is fixed-width and null-padded.
#[derive(Clone, Debug, PartialEq, Eq)]
pub struct DescriptorData {
    pub name: Vec<u8>,
    pub symbol: Vec<u8>,
    pub uri: Vec<u8>,
    pub seller_fee_basis_points: u16,
    pub creators: Option<Vec<Creator>>,
    pub collection: Option<Collection>,
    pub uses: Option<Uses>,
    pub primary_sale_happened: bool,
    pub is_mutable: bool,
}

/// A byte string with its trailing null padding removed.
pub open spec fn trimmed(s: Seq<u8>) -> Seq<u8>
    decreases s.len(),
{
    if s.len() > 0 && s.last() == 0u8 {
        trimmed(s.drop_last())
    } else {
        s
    }
}

/// The six-byte URI suffix naming a level: `"<digit>.json"`, with levels
/// outside `[1, 6]` falling back to `"1.json"`.
pub open spec fn level_suffix(level: u8) -> Seq<u8> {
    if 1 <= level <= 6 {
        seq![(48 + level) as u8, 46u8, 106u8, 115u8, 111u8, 110u8]
    } else {
        seq![49u8, 46u8, 106u8, 115u8, 111u8, 110u8]
    }
}

/// The URI after an advance to `new_level`: the trimmed current URI with its
/// last six bytes replaced by the suffix for `new_level`.
pub open spec fn next_uri(uri: Seq<u8>, new_level: u8) -> Seq<u8>
    recommends
        trimmed(uri).len() >= 6,
{
    trimmed(uri).take(trimmed(uri).len() - 6) + level_suffix(new_level)
}

/// Strip trailing null padding and replace the last six bytes — the current
/// `"<digit>.json"` suffix — by the suffix for `new_level`. Rejects a URI
/// shorter than one suffix after trimming, and changes nothing else.
pub fn advance_uri(uri: Vec<u8>, new_level: u8) -> (r: Result<Vec<u8>, StageError>)
    ensures
        trimmed(uri@).len() >= 6 ==> (r matches Ok(u) && u@ == next_uri(uri@, new_level)),
        trimmed(uri@).len() < 6 ==> r == Err::<Vec<u8>, StageError>(
            StageError::MalformedUriSuffix,
        ),
{
    let mut work = uri;
    let mut end: usize = work.len();
    proof {
        assert(work@.take(end as int) =~= work@);
    }
    while end > 0 && work[end - 1] == 0
        invariant
            end <= work.len(),
            trimmed(work@) == trimmed(work@.take(end as int)),
        decreases end,
    {
        proof {
            assert(work@.take(end as int).drop_last() =~= work@.take(end - 1 as int));
        }
        end = end - 1;
    }
    proof {
        assert(trimmed(work@.take(end as int)) == work@.take(end as int));
    }
    work.truncate(end);
    if work.len() < 6 {
        return Err(StageError::MalformedUriSuffix);
    }
    let base_len = work.len() - 6;
    work.truncate(base_len);
    let digit: u8 = if 1 <= new_level && new_level <= 6 {
        48 + new_level
    } else {
        49
    };
    work.push(digit);
    work.push(46);
    work.push(106);
    work.push(115);
    work.push(111);
    work.push(110);
    proof {
        assert(work@ =~= next_uri(uri@, new_level));
    }
    Ok(work)
}

/// Trailing null padding does not survive trimming: appending any run of
/// null bytes to a string that does not itself end in one changes nothing.
proof fn lemma_trimmed_padding(s: Seq<u8>, pad: Seq<u8>)
    requires
        forall|i: int| 0 <= i < pad.len() ==> pad[i] == 0u8,
        s.len() > 0 ==> s.last() != 0u8,
    ensures
        trimmed(s + pad) == s,
    decreases pad.len(),
{
    if pad.len() == 0 {
        assert(s + pad =~= s);
    } else {
        assert((s + pad).last() == 0u8);
        assert((s + pad).drop_last() =~= s + pad.drop_last());
        lemma_trimmed_padding(s, pad.drop_last());
    }
}

/// Law: advancing replaces exactly the level suffix. A stored URI made of a
/// base path, the suffix for level `n`, and any trailing null padding turns
/// into the same base path followed by the suffix for level `n + 1`.
pub proof fn lemma_uri_transition(base: Seq<u8>, n: u8, pad: Seq<u8>)
    requires
        1 <= n < 6,
        forall|i: int| 0 <= i < pad.len() ==> pad[i] == 0u8,
    ensures
        next_uri(base + level_suffix(n) + pad, (n + 1) as u8) == base + level_suffix(
            (n + 1) as u8,
        ),
{
    let s = base + level_suffix(n);
    assert(s.last() == 110u8);
    assert(base + level_suffix(n) + pad =~= s + pad);
    lemma_trimmed_padding(s, pad);
    assert(trimmed(s + pad).take(trimmed(s + pad).len() - 6) =~= base);
}

} // verus!
