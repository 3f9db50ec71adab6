use nft_stages::{init, level_up, DescriptorData, NftPda, StageError};
use nft_stages::descriptor::{advance_uri, Collection, Creator, UseMethod, Uses};
use solana_program::pubkey::Pubkey;

const PROGRAM_ID: [u8; 32] = [7; 32];
const MINT: [u8; 32] = [42; 32];

fn live_authority() -> ([u8; 32], u8) {
    let (address, bump) = Pubkey::find_program_address(
        &[b"update_authority"],
        &Pubkey::new_from_array(PROGRAM_ID),
    );
    (address.to_bytes(), bump)
}

fn record_bump() -> u8 {
    let (_, bump) = Pubkey::find_program_address(
        &[b"DEFIxNFT", &MINT],
        &Pubkey::new_from_array(PROGRAM_ID),
    );
    bump
}

fn descriptor_with_uri(uri: &[u8]) -> DescriptorData {
    DescriptorData {
        name: b"Token Name".to_vec(),
        symbol: b"TKN".to_vec(),
        uri: uri.to_vec(),
        seller_fee_basis_points: 550,
        creators: Some(vec![Creator { address: [9; 32], verified: true, share: 100 }]),
        collection: Some(Collection { verified: false, key: [3; 32] }),
        uses: Some(Uses { use_method: UseMethod::Multiple, remaining: 5, total: 9 }),
        primary_sale_happened: true,
        is_mutable: true,
    }
}

fn initialized_record(level: u8) -> NftPda {
    let (_, authority_bump) = live_authority();
    NftPda {
        is_initialized: true,
        bump: record_bump(),
        nft_authority_bump: authority_bump,
        level,
        mint: MINT,
    }
}

#[test]
fn domain_tags_are_the_ascii_seeds() {
    assert_eq!(nft_stages::pda::record_tag_bytes(), b"DEFIxNFT".to_vec());
    assert_eq!(
        nft_stages::pda::authority_tag_bytes(),
        b"update_authority".to_vec()
    );
}

#[test]
fn create_sets_level_one() {
    let record = init(None, MINT, PROGRAM_ID).unwrap();
    assert!(record.is_initialized);
    assert_eq!(record.level, 1);
    assert_eq!(record.mint, MINT);
    assert_eq!(record.bump, record_bump());
    assert_eq!(record.nft_authority_bump, live_authority().1);
}

#[test]
fn create_again_keeps_state() {
    let mut record = init(None, MINT, PROGRAM_ID).unwrap();
    record.level = 3;
    let again = init(Some(record), MINT, PROGRAM_ID).unwrap();
    assert_eq!(again, record);
    assert_eq!(again.level, 3);
}

#[test]
fn create_replaces_uninitialized_record() {
    let stale = NftPda {
        is_initialized: false,
        bump: 0,
        nft_authority_bump: 0,
        level: 0,
        mint: [0; 32],
    };
    let record = init(Some(stale), MINT, PROGRAM_ID).unwrap();
    assert!(record.is_initialized);
    assert_eq!(record.level, 1);
    assert_eq!(record.mint, MINT);
}

#[test]
fn advance_increments_level_and_suffix() {
    let (authority, _) = live_authority();
    let mut record = initialized_record(3);
    let descriptor = descriptor_with_uri(b"https://x/y/3.json\0\0\0\0");
    let updated = level_up(&mut record, descriptor, authority, PROGRAM_ID)
        .unwrap()
        .unwrap();
    assert_eq!(record.level, 4);
    assert_eq!(updated.uri, b"https://x/y/4.json".to_vec());
}

#[test]
fn advance_from_each_level_below_ceiling() {
    let (authority, _) = live_authority();
    for n in 1u8..6 {
        let mut record = initialized_record(n);
        let uri = format!("https://host/path/{}.json", n).into_bytes();
        let updated = level_up(&mut record, descriptor_with_uri(&uri), authority, PROGRAM_ID)
            .unwrap()
            .unwrap();
        assert_eq!(record.level, n + 1);
        let expected = format!("https://host/path/{}.json", n + 1).into_bytes();
        assert_eq!(updated.uri, expected);
    }
}

#[test]
fn ceiling_is_idempotent() {
    let (authority, _) = live_authority();
    let mut record = initialized_record(6);
    let before = record;
    for _ in 0..3 {
        let outcome = level_up(
            &mut record,
            descriptor_with_uri(b"https://x/y/6.json"),
            authority,
            PROGRAM_ID,
        )
        .unwrap();
        assert!(outcome.is_none());
        assert_eq!(record, before);
    }
}

#[test]
fn round_trip_descriptor_fields() {
    let (authority, _) = live_authority();
    let mut record = initialized_record(3);
    let descriptor = descriptor_with_uri(b"https://x/y/3.json");
    let expected = descriptor.clone();
    let updated = level_up(&mut record, descriptor, authority, PROGRAM_ID)
        .unwrap()
        .unwrap();
    assert_eq!(updated.uri, b"https://x/y/4.json".to_vec());
    assert_eq!(updated.name, expected.name);
    assert_eq!(updated.symbol, expected.symbol);
    assert_eq!(updated.seller_fee_basis_points, expected.seller_fee_basis_points);
    assert_eq!(updated.creators, expected.creators);
    assert_eq!(updated.collection, expected.collection);
    assert_eq!(updated.uses, expected.uses);
    assert_eq!(updated.primary_sale_happened, expected.primary_sale_happened);
    assert_eq!(updated.is_mutable, expected.is_mutable);
}

#[test]
fn uninitialized_record_fails() {
    let (authority, _) = live_authority();
    let mut record = initialized_record(2);
    record.is_initialized = false;
    let before = record;
    let outcome = level_up(
        &mut record,
        descriptor_with_uri(b"https://x/y/2.json"),
        authority,
        PROGRAM_ID,
    );
    assert_eq!(outcome, Err(StageError::RecordNotInitialized));
    assert_eq!(record, before);
}

#[test]
fn short_uri_fails() {
    let (authority, _) = live_authority();
    let mut record = initialized_record(2);
    let before = record;
    let outcome = level_up(
        &mut record,
        descriptor_with_uri(b"a.js\0\0\0"),
        authority,
        PROGRAM_ID,
    );
    assert_eq!(outcome, Err(StageError::MalformedUriSuffix));
    assert_eq!(record, before);
}

#[test]
fn tampered_salt_fails() {
    let (authority, _) = live_authority();
    let mut record = initialized_record(2);
    record.nft_authority_bump = record.nft_authority_bump.wrapping_add(1);
    let before = record;
    let outcome = level_up(
        &mut record,
        descriptor_with_uri(b"https://x/y/2.json"),
        authority,
        PROGRAM_ID,
    );
    assert_eq!(outcome, Err(StageError::SignatureDerivationMismatch));
    assert_eq!(record, before);
}

#[test]
fn wrong_live_authority_fails() {
    let mut record = initialized_record(2);
    let outcome = level_up(
        &mut record,
        descriptor_with_uri(b"https://x/y/2.json"),
        [1; 32],
        PROGRAM_ID,
    );
    assert_eq!(outcome, Err(StageError::SignatureDerivationMismatch));
}

#[test]
fn advance_uri_strips_padding() {
    let got = advance_uri(b"https://a/b/1.json\0\0\0\0\0\0".to_vec(), 2).unwrap();
    assert_eq!(got, b"https://a/b/2.json".to_vec());
}

#[test]
fn advance_uri_exactly_suffix() {
    let got = advance_uri(b"5.json".to_vec(), 6).unwrap();
    assert_eq!(got, b"6.json".to_vec());
}

#[test]
fn advance_uri_out_of_range_level_defaults() {
    let got = advance_uri(b"base/9.json".to_vec(), 9).unwrap();
    assert_eq!(got, b"base/1.json".to_vec());
}

#[test]
fn advance_uri_too_short_fails() {
    assert_eq!(
        advance_uri(b"x.js\0".to_vec(), 2),
        Err(StageError::MalformedUriSuffix)
    );
}

#[test]
fn full_progression_reaches_and_holds_ceiling() {
    let (authority, _) = live_authority();
    let mut record = init(None, MINT, PROGRAM_ID).unwrap();
    let mut uri = b"ipfs://cid/1.json".to_vec();
    for n in 1u8..6 {
        let updated = level_up(&mut record, descriptor_with_uri(&uri), authority, PROGRAM_ID)
            .unwrap()
            .unwrap();
        assert_eq!(record.level, n + 1);
        uri = updated.uri;
        assert_eq!(uri, format!("ipfs://cid/{}.json", n + 1).into_bytes());
    }
    assert_eq!(record.level, 6);
    let outcome = level_up(&mut record, descriptor_with_uri(&uri), authority, PROGRAM_ID).unwrap();
    assert!(outcome.is_none());
    assert_eq!(record.level, 6);
}

#[test]
fn record_bytes_round_trip() {
    let record = initialized_record(5);
    let bytes = record.to_bytes();
    assert_eq!(bytes.len(), 44);
    assert_eq!(NftPda::from_bytes(&bytes), Some(record));
}

#[test]
fn record_bytes_layout() {
    let record = NftPda {
        is_initialized: true,
        bump: 7,
        nft_authority_bump: 9,
        level: 4,
        mint: [1; 32],
    };
    let mut expected = vec![239u8, 134, 203, 232, 44, 102, 251, 106, 1, 4, 7, 9];
    expected.extend([1u8; 32]);
    assert_eq!(record.to_bytes(), expected);
}

#[test]
fn record_bytes_rejects_corruption() {
    let record = initialized_record(5);
    let good = record.to_bytes();

    let mut wrong_tag = good.clone();
    wrong_tag[0] ^= 0xff;
    assert_eq!(NftPda::from_bytes(&wrong_tag), None);

    let mut bad_flag = good.clone();
    bad_flag[8] = 2;
    assert_eq!(NftPda::from_bytes(&bad_flag), None);

    let mut bad_level = good.clone();
    bad_level[9] = 7;
    assert_eq!(NftPda::from_bytes(&bad_level), None);

    let mut truncated = good.clone();
    truncated.pop();
    assert_eq!(NftPda::from_bytes(&truncated), None);
}
