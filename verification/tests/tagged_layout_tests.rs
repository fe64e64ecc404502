use nft_inspect::error::{DecodeError, Field};
use nft_inspect::identifier::Identifier;
use nft_inspect::master_edition::{
    decode_master_edition, MasterEditionRecord, MASTER_EDITION_TAG, MAX_MASTER_EDITION_LEN,
    MIN_MASTER_EDITION_LEN,
};
use nft_inspect::metadata::{
    decode_metadata, Collection, Creator, MetadataRecord, TokenStandard, UseMethod, Uses,
    MAX_METADATA_LEN, METADATA_TAG, MIN_METADATA_LEN,
};
use nft_inspect::record::{decode, RecordKind, TypedRecord};
use solana_program::borsh::try_from_slice_unchecked;
use spl_token_metadata::state::{Key, MasterEditionV2, Metadata};
use spl_token_metadata::utils::try_from_slice_checked;

fn key(fill: u8) -> [u8; 32] {
    let mut bytes = [fill; 32];
    bytes[0] = 0xC0;
    bytes[31] = 0x0D;
    bytes
}

fn put_text(buf: &mut Vec<u8>, text: &[u8]) {
    buf.extend_from_slice(&(text.len() as u32).to_le_bytes());
    buf.extend_from_slice(text);
}

struct Parts<'a> {
    name: &'a [u8],
    symbol: &'a [u8],
    uri: &'a [u8],
    fee: u16,
    creators: Option<Vec<([u8; 32], u8, u8)>>,
    primary_sale: u8,
    mutable: u8,
    nonce: Option<u8>,
    later: &'a [u8],
}

fn plain() -> Parts<'static> {
    Parts {
        name: b"Degen Ape #1",
        symbol: b"DAPE",
        uri: b"https://example.org/1.json",
        fee: 420,
        creators: Some(vec![(key(1), 1, 60), (key(2), 0, 40)]),
        primary_sale: 1,
        mutable: 0,
        nonce: Some(253),
        later: &[],
    }
}

fn metadata_buffer(parts: &Parts) -> Vec<u8> {
    let mut buf = vec![4u8];
    buf.extend_from_slice(&key(0xAA));
    buf.extend_from_slice(&key(0xBB));
    put_text(&mut buf, parts.name);
    put_text(&mut buf, parts.symbol);
    put_text(&mut buf, parts.uri);
    buf.extend_from_slice(&parts.fee.to_le_bytes());
    match &parts.creators {
        Some(list) => {
            buf.push(1);
            buf.extend_from_slice(&(list.len() as u32).to_le_bytes());
            for (address, verified, share) in list {
                buf.extend_from_slice(address);
                buf.push(*verified);
                buf.push(*share);
            }
        }
        None => buf.push(0),
    }
    buf.push(parts.primary_sale);
    buf.push(parts.mutable);
    match parts.nonce {
        Some(n) => {
            buf.push(1);
            buf.push(n);
        }
        None => buf.push(0),
    }
    buf.extend_from_slice(parts.later);
    buf
}

fn later_fields(standard: u8, verified: u8, method: u8) -> Vec<u8> {
    let mut bytes = vec![1, standard, 1, verified];
    bytes.extend_from_slice(&key(0xCC));
    bytes.extend_from_slice(&[1, method]);
    bytes.extend_from_slice(&7u64.to_le_bytes());
    bytes.extend_from_slice(&10u64.to_le_bytes());
    bytes
}

fn padded(mut buf: Vec<u8>, len: usize) -> Vec<u8> {
    buf.resize(len, 0);
    buf
}

fn malformed(detail: Field) -> Result<MetadataRecord, DecodeError> {
    Err(DecodeError::MalformedField { detail })
}

#[test]
fn limits_are_those_of_the_metadata_program() {
    assert_eq!(METADATA_TAG, 4);
    assert_eq!(MASTER_EDITION_TAG, 6);
    assert_eq!(METADATA_TAG, Key::MetadataV1 as u8);
    assert_eq!(MASTER_EDITION_TAG, Key::MasterEditionV2 as u8);
    assert_eq!(MAX_METADATA_LEN, 679);
    assert_eq!(MAX_MASTER_EDITION_LEN, 282);
    assert_eq!(MAX_METADATA_LEN, spl_token_metadata::state::MAX_METADATA_LEN);
    assert_eq!(MAX_MASTER_EDITION_LEN, spl_token_metadata::state::MAX_MASTER_EDITION_LEN);
    assert_eq!(MIN_METADATA_LEN, 83);
    assert_eq!(MIN_MASTER_EDITION_LEN, 10);
}

#[test]
fn decodes_metadata() {
    let buf = padded(metadata_buffer(&plain()), 679);
    let record = decode_metadata(&buf).unwrap();
    assert_eq!(
        record,
        MetadataRecord {
            update_authority: Identifier::new(key(0xAA)),
            mint: Identifier::new(key(0xBB)),
            name: "Degen Ape #1".to_string(),
            symbol: "DAPE".to_string(),
            uri: "https://example.org/1.json".to_string(),
            seller_fee_basis_points: 420,
            creators: Some(vec![
                Creator { address: Identifier::new(key(1)), verified: true, share: 60 },
                Creator { address: Identifier::new(key(2)), verified: false, share: 40 },
            ]),
            primary_sale_happened: true,
            is_mutable: false,
            edition_nonce: Some(253),
            token_standard: None,
            collection: None,
            uses: None,
        }
    );
}

#[test]
fn decodes_the_smallest_metadata() {
    let parts = Parts {
        name: b"",
        symbol: b"",
        uri: b"",
        fee: 0,
        creators: None,
        primary_sale: 0,
        mutable: 1,
        nonce: None,
        later: &[],
    };
    let buf = metadata_buffer(&parts);
    assert_eq!(buf.len(), 83);
    let record = decode_metadata(&buf).unwrap();
    assert_eq!(record.name, "");
    assert_eq!(record.symbol, "");
    assert_eq!(record.uri, "");
    assert_eq!(record.seller_fee_basis_points, 0);
    assert_eq!(record.creators, None);
    assert!(!record.primary_sale_happened);
    assert!(record.is_mutable);
    assert_eq!(record.edition_nonce, None);
    assert_eq!(record.token_standard, None);
    assert_eq!(record.collection, None);
    assert_eq!(record.uses, None);
}

#[test]
fn metadata_keeps_the_padding_of_its_texts() {
    let mut parts = plain();
    parts.name = b"Ape\0\0\0\0\0";
    parts.symbol = "\u{00e9}t\u{00e9}".as_bytes();
    let record = decode_metadata(&padded(metadata_buffer(&parts), 300)).unwrap();
    assert_eq!(record.name, "Ape\0\0\0\0\0");
    assert_eq!(record.name.len(), 8);
    assert_eq!(record.symbol, "\u{00e9}t\u{00e9}");
    assert_eq!(record.symbol.chars().count(), 3);
}

#[test]
fn metadata_fee_is_little_endian() {
    let mut parts = plain();
    parts.fee = 0x1234;
    let buf = padded(metadata_buffer(&parts), 400);
    let at = 65 + 4 + 12 + 4 + 4 + 4 + 26;
    assert_eq!(buf[at], 0x34);
    assert_eq!(buf[at + 1], 0x12);
    assert_eq!(decode_metadata(&buf).unwrap().seller_fee_basis_points, 0x1234);
    parts.fee = 10_000;
    assert_eq!(
        decode_metadata(&padded(metadata_buffer(&parts), 400)).unwrap().seller_fee_basis_points,
        10_000
    );
}

#[test]
fn metadata_with_an_empty_list_of_creators() {
    let mut parts = plain();
    parts.creators = Some(Vec::new());
    let record = decode_metadata(&padded(metadata_buffer(&parts), 200)).unwrap();
    assert_eq!(record.creators, Some(Vec::new()));
    assert_eq!(record.edition_nonce, Some(253));
}

#[test]
fn metadata_one_byte_short_is_too_short() {
    let buf = padded(metadata_buffer(&plain()), 679);
    assert_eq!(decode_metadata(&buf[..82]), Err(DecodeError::BufferTooShort));
    assert_eq!(decode_metadata(&[4u8]), Err(DecodeError::BufferTooShort));
    assert_eq!(decode_metadata(&[]), Err(DecodeError::BufferTooShort));
}

#[test]
fn metadata_one_byte_long_is_too_long() {
    let buf = padded(metadata_buffer(&plain()), 680);
    assert_eq!(decode_metadata(&buf), Err(DecodeError::BufferTooLong));
    assert!(decode_metadata(&buf[..679]).is_ok());
}

#[test]
fn a_master_edition_tag_is_no_metadata() {
    let mut buf = padded(metadata_buffer(&plain()), 679);
    buf[0] = 6;
    assert_eq!(
        decode_metadata(&buf),
        Err(DecodeError::DiscriminatorMismatch { expected: 4, found: 6 })
    );
    assert_eq!(
        decode(&buf, RecordKind::Metadata),
        Err(DecodeError::DiscriminatorMismatch { expected: 4, found: 6 })
    );
}

#[test]
fn any_other_tag_is_no_metadata() {
    let mut buf = padded(metadata_buffer(&plain()), 679);
    for tag in [0u8, 1, 2, 3, 5, 7, 255] {
        buf[0] = tag;
        assert_eq!(
            decode_metadata(&buf),
            Err(DecodeError::DiscriminatorMismatch { expected: 4, found: tag })
        );
    }
}

#[test]
fn length_is_checked_before_the_tag() {
    let mut buf = padded(metadata_buffer(&plain()), 680);
    buf[0] = 6;
    assert_eq!(decode_metadata(&buf), Err(DecodeError::BufferTooLong));
    assert_eq!(decode_metadata(&buf[..50]), Err(DecodeError::BufferTooShort));
}

#[test]
fn the_tag_is_checked_before_the_fields() {
    let mut buf = padded(metadata_buffer(&plain()), 679);
    buf[0] = 6;
    buf[65] = 0xFF;
    buf[66] = 0xFF;
    assert_eq!(
        decode_metadata(&buf),
        Err(DecodeError::DiscriminatorMismatch { expected: 4, found: 6 })
    );
    buf[0] = 4;
    assert_eq!(decode_metadata(&buf), malformed(Field::Name));
}

#[test]
fn a_text_that_runs_past_the_end_is_malformed() {
    let mut buf = padded(metadata_buffer(&plain()), 100);
    buf[65..69].copy_from_slice(&32u32.to_le_bytes());
    assert_eq!(decode_metadata(&buf), malformed(Field::Name));
    buf[65..69].copy_from_slice(&31u32.to_le_bytes());
    assert_ne!(decode_metadata(&buf), malformed(Field::Name));
    buf[65..69].copy_from_slice(&u32::MAX.to_le_bytes());
    assert_eq!(decode_metadata(&buf), malformed(Field::Name));
}

#[test]
fn a_text_that_is_not_utf8_is_malformed() {
    let mut parts = plain();
    parts.name = &[0x41, 0xFF, 0x42];
    assert_eq!(decode_metadata(&padded(metadata_buffer(&parts), 300)), malformed(Field::Name));
    let mut parts = plain();
    parts.symbol = &[0xC3];
    assert_eq!(decode_metadata(&padded(metadata_buffer(&parts), 300)), malformed(Field::Symbol));
    let mut parts = plain();
    parts.uri = &[0xED, 0xA0, 0x80];
    assert_eq!(decode_metadata(&padded(metadata_buffer(&parts), 300)), malformed(Field::Uri));
}

#[test]
fn each_metadata_field_can_be_cut_off() {
    let whole = metadata_buffer(&plain());
    let name_end = 65 + 4 + 12;
    let symbol_end = name_end + 4 + 4;
    let uri_end = symbol_end + 4 + 26;
    let fee_end = uri_end + 2;
    let creators_end = fee_end + 5 + 68;
    let cases = [
        (name_end + 3, Field::Symbol),
        (symbol_end - 1, Field::Symbol),
        (symbol_end, Field::Uri),
        (uri_end - 1, Field::Uri),
        (uri_end, Field::SellerFeeBasisPoints),
        (uri_end + 1, Field::SellerFeeBasisPoints),
        (fee_end, Field::Creators),
        (fee_end + 4, Field::Creators),
        (creators_end - 1, Field::Creators),
        (creators_end, Field::PrimarySaleHappened),
        (creators_end + 1, Field::IsMutable),
        (creators_end + 2, Field::EditionNonce),
        (creators_end + 3, Field::EditionNonce),
    ];
    for (len, field) in cases {
        assert!(len >= 83);
        assert_eq!(decode_metadata(&whole[..len]), malformed(field), "length {}", len);
    }
    assert_eq!(whole.len(), creators_end + 4);
    assert!(decode_metadata(&whole).is_ok());
}

#[test]
fn metadata_flags_must_be_zero_or_one() {
    let mut parts = plain();
    parts.primary_sale = 2;
    assert_eq!(
        decode_metadata(&padded(metadata_buffer(&parts), 300)),
        malformed(Field::PrimarySaleHappened)
    );
    let mut parts = plain();
    parts.mutable = 3;
    assert_eq!(decode_metadata(&padded(metadata_buffer(&parts), 300)), malformed(Field::IsMutable));
    let mut parts = plain();
    parts.creators = Some(vec![(key(1), 1, 50), (key(2), 2, 50)]);
    assert_eq!(decode_metadata(&padded(metadata_buffer(&parts), 300)), malformed(Field::Creators));
}

#[test]
fn metadata_markers_must_be_zero_or_one() {
    let parts = Parts { creators: None, nonce: None, ..plain() };
    let mut buf = metadata_buffer(&parts);
    let creators_at = buf.len() - 4;
    buf[creators_at] = 2;
    assert_eq!(decode_metadata(&padded(buf.clone(), 300)), malformed(Field::Creators));
    buf[creators_at] = 0;
    let nonce_at = buf.len() - 1;
    buf[nonce_at] = 5;
    assert_eq!(decode_metadata(&padded(buf, 300)), malformed(Field::EditionNonce));
}

#[test]
fn a_count_of_creators_past_the_end_is_malformed() {
    let mut parts = plain();
    parts.creators = Some(vec![(key(1), 1, 100)]);
    let mut buf = metadata_buffer(&parts);
    let count_at = buf.len() - 4 - 34 - 4;
    buf[count_at..count_at + 4].copy_from_slice(&2u32.to_le_bytes());
    assert_eq!(decode_metadata(&buf), malformed(Field::Creators));
    buf[count_at..count_at + 4].copy_from_slice(&u32::MAX.to_le_bytes());
    assert_eq!(decode_metadata(&padded(buf, 679)), malformed(Field::Creators));
}

#[test]
fn metadata_agrees_with_the_metadata_program() {
    let buf = padded(metadata_buffer(&plain()), 679);
    let theirs: Metadata = try_from_slice_checked(&buf, Key::MetadataV1, 679).unwrap();
    let ours = decode_metadata(&buf).unwrap();
    assert_eq!(theirs.key, Key::MetadataV1);
    assert_eq!(ours.update_authority.bytes, theirs.update_authority.to_bytes());
    assert_eq!(ours.mint.bytes, theirs.mint.to_bytes());
    assert_eq!(ours.name, theirs.data.name);
    assert_eq!(ours.symbol, theirs.data.symbol);
    assert_eq!(ours.uri, theirs.data.uri);
    assert_eq!(ours.seller_fee_basis_points, theirs.data.seller_fee_basis_points);
    let creators = theirs.data.creators.unwrap();
    let listed = ours.creators.unwrap();
    assert_eq!(listed.len(), creators.len());
    for (a, b) in listed.iter().zip(creators.iter()) {
        assert_eq!(a.address.bytes, b.address.to_bytes());
        assert_eq!(a.verified, b.verified);
        assert_eq!(a.share, b.share);
    }
    assert_eq!(ours.primary_sale_happened, theirs.primary_sale_happened);
    assert_eq!(ours.is_mutable, theirs.is_mutable);
    assert_eq!(ours.edition_nonce, theirs.edition_nonce);
}

#[test]
fn metadata_refuses_what_the_metadata_program_refuses() {
    let whole = metadata_buffer(&plain());
    for len in 83..whole.len() {
        let theirs: Result<Metadata, _> = try_from_slice_unchecked(&whole[..len]);
        assert!(theirs.is_err(), "length {}", len);
        assert!(decode_metadata(&whole[..len]).is_err(), "length {}", len);
    }
    for at in 65..whole.len() {
        let mut buf = whole.clone();
        buf[at] = buf[at].wrapping_add(0x80);
        let theirs: Result<Metadata, _> = try_from_slice_unchecked(&buf);
        assert_eq!(decode_metadata(&buf).is_ok(), theirs.is_ok(), "byte {}", at);
    }
}

#[test]
fn decodes_a_master_edition() {
    let mut buf = vec![6u8];
    buf.extend_from_slice(&3u64.to_le_bytes());
    buf.push(1);
    buf.extend_from_slice(&100u64.to_le_bytes());
    let record = decode_master_edition(&padded(buf, 282)).unwrap();
    assert_eq!(record, MasterEditionRecord { supply: 3, max_supply: Some(100) });
}

#[test]
fn decodes_a_master_edition_without_a_bound() {
    let mut buf = vec![6u8];
    buf.extend_from_slice(&0x0807_0605_0403_0201u64.to_le_bytes());
    buf.push(0);
    assert_eq!(buf.len(), 10);
    let record = decode_master_edition(&buf).unwrap();
    assert_eq!(record, MasterEditionRecord { supply: 0x0807_0605_0403_0201, max_supply: None });
    assert_eq!(decode_master_edition(&padded(buf, 282)), Ok(record));
}

#[test]
fn master_edition_one_byte_short_is_too_short() {
    let buf = [6u8, 1, 0, 0, 0, 0, 0, 0, 0];
    assert_eq!(decode_master_edition(&buf), Err(DecodeError::BufferTooShort));
}

#[test]
fn master_edition_one_byte_long_is_too_long() {
    let buf = padded(vec![6u8], 283);
    assert_eq!(decode_master_edition(&buf), Err(DecodeError::BufferTooLong));
    assert!(decode_master_edition(&buf[..282]).is_ok());
}

#[test]
fn a_metadata_tag_is_no_master_edition() {
    let buf = padded(vec![4u8], 282);
    assert_eq!(
        decode_master_edition(&buf),
        Err(DecodeError::DiscriminatorMismatch { expected: 6, found: 4 })
    );
    let buf = padded(vec![0u8], 282);
    assert_eq!(
        decode_master_edition(&buf),
        Err(DecodeError::DiscriminatorMismatch { expected: 6, found: 0 })
    );
}

#[test]
fn master_edition_bound_must_be_whole() {
    let mut buf = vec![6u8];
    buf.extend_from_slice(&3u64.to_le_bytes());
    buf.push(1);
    buf.extend_from_slice(&100u64.to_le_bytes());
    assert!(decode_master_edition(&buf).is_ok());
    for len in 10..18 {
        assert_eq!(
            decode_master_edition(&buf[..len]),
            Err(DecodeError::MalformedField { detail: Field::MaxSupply }),
            "length {}",
            len
        );
    }
    buf[9] = 2;
    assert_eq!(
        decode_master_edition(&buf),
        Err(DecodeError::MalformedField { detail: Field::MaxSupply })
    );
}

#[test]
fn master_edition_agrees_with_the_metadata_program() {
    let mut buf = vec![6u8];
    buf.extend_from_slice(&77u64.to_le_bytes());
    buf.push(1);
    buf.extend_from_slice(&u64::MAX.to_le_bytes());
    let buf = padded(buf, 282);
    let theirs: MasterEditionV2 = try_from_slice_checked(&buf, Key::MasterEditionV2, 282).unwrap();
    let ours = decode_master_edition(&buf).unwrap();
    assert_eq!(ours.supply, theirs.supply);
    assert_eq!(ours.max_supply, theirs.max_supply);
}

#[test]
fn decode_dispatches_on_the_tagged_kinds() {
    let metadata = padded(metadata_buffer(&plain()), 679);
    match decode(&metadata, RecordKind::Metadata) {
        Ok(TypedRecord::Metadata(record)) => assert_eq!(record.symbol, "DAPE"),
        other => panic!("not metadata: {:?}", other),
    }
    assert_eq!(
        decode(&metadata, RecordKind::MasterEdition),
        Err(DecodeError::BufferTooLong)
    );
    let edition = padded(vec![6u8], 282);
    match decode(&edition, RecordKind::MasterEdition) {
        Ok(record) => assert_eq!(record.kind(), RecordKind::MasterEdition),
        Err(e) => panic!("not a master edition: {:?}", e),
    }
    assert_eq!(
        decode(&edition, RecordKind::Metadata),
        Err(DecodeError::DiscriminatorMismatch { expected: 4, found: 6 })
    );
}

#[test]
fn decodes_the_later_fields_of_metadata() {
    let bytes = later_fields(0, 1, 2);
    let parts = Parts { later: &bytes, ..plain() };
    for len in [0usize, 400, 679] {
        let mut buf = metadata_buffer(&parts);
        if len > 0 {
            buf = padded(buf, len);
        }
        let record = decode_metadata(&buf).unwrap();
        assert_eq!(record.edition_nonce, Some(253));
        assert_eq!(record.token_standard, Some(TokenStandard::NonFungible));
        assert_eq!(
            record.collection,
            Some(Collection { verified: true, key: Identifier::new(key(0xCC)) })
        );
        assert_eq!(
            record.uses,
            Some(Uses { use_method: UseMethod::Single, remaining: 7, total: 10 })
        );
    }
}

#[test]
fn each_later_field_can_be_absent() {
    let mut only_standard = vec![1u8, 3, 0, 0];
    let parts = Parts { later: &only_standard, ..plain() };
    let record = decode_metadata(&metadata_buffer(&parts)).unwrap();
    assert_eq!(record.token_standard, Some(TokenStandard::NonFungibleEdition));
    assert_eq!(record.collection, None);
    assert_eq!(record.uses, None);

    only_standard[1] = 1;
    let parts = Parts { later: &only_standard, ..plain() };
    let record = decode_metadata(&metadata_buffer(&parts)).unwrap();
    assert_eq!(record.token_standard, Some(TokenStandard::FungibleAsset));

    let mut only_uses = vec![0u8, 0, 1, 0];
    only_uses.extend_from_slice(&u64::MAX.to_le_bytes());
    only_uses.extend_from_slice(&0x0102_0304u64.to_le_bytes());
    let parts = Parts { later: &only_uses, ..plain() };
    let record = decode_metadata(&metadata_buffer(&parts)).unwrap();
    assert_eq!(record.token_standard, None);
    assert_eq!(record.collection, None);
    assert_eq!(
        record.uses,
        Some(Uses { use_method: UseMethod::Burn, remaining: u64::MAX, total: 0x0102_0304 })
    );

    let mut only_collection = vec![0u8, 1, 0];
    only_collection.extend_from_slice(&key(0x99));
    only_collection.push(0);
    let parts = Parts { later: &only_collection, ..plain() };
    let record = decode_metadata(&metadata_buffer(&parts)).unwrap();
    assert_eq!(
        record.collection,
        Some(Collection { verified: false, key: Identifier::new(key(0x99)) })
    );
    assert_eq!(record.token_standard, None);
    assert_eq!(record.uses, None);
}

#[test]
fn later_fields_are_taken_together_or_not_at_all() {
    let good = later_fields(2, 0, 1);
    let parts = Parts { later: &good, ..plain() };
    let whole = metadata_buffer(&parts);
    let with_all = decode_metadata(&whole).unwrap();
    assert_eq!(with_all.token_standard, Some(TokenStandard::Fungible));
    assert_eq!(with_all.uses.map(|u| u.use_method), Some(UseMethod::Multiple));
    let without = decode_metadata(&metadata_buffer(&plain())).unwrap();
    assert_eq!(without.token_standard, None);

    let start = whole.len() - good.len();
    for (at, value) in [(0usize, 2u8), (1, 4), (2, 2), (3, 2), (36, 2), (37, 3)] {
        let mut buf = whole.clone();
        buf[start + at] = value;
        let record = decode_metadata(&buf).unwrap();
        assert_eq!(record, without, "byte {} set to {}", at, value);
    }
    for len in start..whole.len() {
        let record = decode_metadata(&whole[..len]).unwrap();
        assert_eq!(record, without, "length {}", len);
    }
}

#[test]
fn what_is_left_behind_the_nonce_does_not_stop_the_decoding() {
    let leftovers = [0xC0u8, 0x1D, 0x05, 0xA1, 0x01, 0x64, 0xFF];
    let parts = Parts { later: &leftovers, ..plain() };
    let record = decode_metadata(&padded(metadata_buffer(&parts), 679)).unwrap();
    assert_eq!(record.name, "Degen Ape #1");
    assert_eq!(record.edition_nonce, Some(253));
    assert_eq!(record.token_standard, None);
    assert_eq!(record.collection, None);
    assert_eq!(record.uses, None);
}
