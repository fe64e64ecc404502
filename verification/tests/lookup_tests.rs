use nft_inspect::addresses::{edition_address, metadata_address};
use nft_inspect::error::{DecodeError, Field};
use nft_inspect::identifier::Identifier;
use nft_inspect::lookup;
use nft_inspect::lookup::{advance, start, AssembledView, LookupError, LookupKind, Next, Pending};
use std::cell::RefCell;
use nft_inspect::master_edition::{decode_master_edition, MasterEditionRecord};
use nft_inspect::metadata::{decode_metadata, TokenStandard};
use nft_inspect::mint::decode_mint;
use nft_inspect::record::{RecordKind, TypedRecord};
use nft_inspect::token_account::decode_token_account;

/// A ledger that holds the accounts it was given and nothing else, and
/// keeps count of what was asked of it.
struct Ledger {
    accounts: Vec<(Identifier, Vec<u8>)>,
    asked: RefCell<Vec<Identifier>>,
}

impl Ledger {
    fn new() -> Ledger {
        Ledger { accounts: Vec::new(), asked: RefCell::new(Vec::new()) }
    }

    fn with(mut self, address: Identifier, data: Vec<u8>) -> Ledger {
        self.accounts.push((address, data));
        self
    }

    fn without(mut self, address: Identifier) -> Ledger {
        self.accounts.retain(|(a, _)| *a != address);
        self
    }

    fn fetch(&self, address: &Identifier) -> Option<Vec<u8>> {
        self.asked.borrow_mut().push(*address);
        self.accounts.iter().find(|(a, _)| a == address).map(|(_, d)| d.clone())
    }

    fn asked(&self) -> Vec<Identifier> {
        self.asked.borrow().clone()
    }
}

fn look(kind: LookupKind, root: Identifier, ledger: &Ledger) -> Result<AssembledView, LookupError> {
    lookup::lookup(kind, root, |address: &Identifier| ledger.fetch(address))
}

fn step_by_step(
    kind: LookupKind,
    root: Identifier,
    ledger: &Ledger,
) -> Result<AssembledView, LookupError> {
    let mut pending = start(kind, root);
    loop {
        let fetched = ledger.fetch(&pending.address());
        match advance(pending, fetched.as_deref()) {
            Next::Fetch(next) => pending = next,
            Next::Done(view) => return Ok(view),
            Next::Failed(error) => return Err(error),
        }
    }
}

fn mint_id() -> Identifier {
    let mut bytes = [0u8; 32];
    for (i, b) in bytes.iter_mut().enumerate() {
        *b = i as u8 + 1;
    }
    Identifier::new(bytes)
}

fn mint_data() -> Vec<u8> {
    let mut buf = vec![0u8; 82];
    buf[0] = 1;
    buf[4..36].copy_from_slice(&[0x11; 32]);
    buf[36..44].copy_from_slice(&1u64.to_le_bytes());
    buf[45] = 1;
    buf
}

fn edition_data() -> Vec<u8> {
    let mut buf = vec![0u8; 282];
    buf[0] = 6;
    buf[1..9].copy_from_slice(&2u64.to_le_bytes());
    buf[9] = 1;
    buf[10..18].copy_from_slice(&50u64.to_le_bytes());
    buf
}

fn metadata_data() -> Vec<u8> {
    let mut buf = vec![4u8];
    buf.extend_from_slice(&[0x11; 32]);
    buf.extend_from_slice(&mint_id().bytes);
    for text in [&b"Pinned"[..], &b"PIN"[..], &b"https://example.org/pin"[..]] {
        buf.extend_from_slice(&(text.len() as u32).to_le_bytes());
        buf.extend_from_slice(text);
    }
    buf.extend_from_slice(&500u16.to_le_bytes());
    buf.push(0);
    buf.push(1);
    buf.push(1);
    buf.push(1);
    buf.push(254);
    buf.resize(679, 0);
    buf
}

fn account_data() -> Vec<u8> {
    let mut buf = vec![0u8; 165];
    buf[0..32].copy_from_slice(&mint_id().bytes);
    buf[32..64].copy_from_slice(&[0x22; 32]);
    buf[64..72].copy_from_slice(&1u64.to_le_bytes());
    buf[108] = 1;
    buf
}

fn edition_id() -> Identifier {
    edition_address(&mint_id()).unwrap().address()
}

fn metadata_id() -> Identifier {
    metadata_address(&mint_id()).unwrap().address()
}

fn full_ledger() -> Ledger {
    Ledger::new()
        .with(mint_id(), mint_data())
        .with(edition_id(), edition_data())
        .with(metadata_id(), metadata_data())
}

#[test]
fn full_lookup_assembles_all_three_records() {
    let ledger = full_ledger();
    let view = look(LookupKind::FullNft, mint_id(), &ledger).unwrap();
    assert_eq!(
        view,
        AssembledView::FullNft {
            mint: decode_mint(&mint_data()).unwrap(),
            master_edition: decode_master_edition(&edition_data()).unwrap(),
            metadata: decode_metadata(&metadata_data()).unwrap(),
        }
    );
    match view {
        AssembledView::FullNft { mint, master_edition, metadata } => {
            assert_eq!(mint.supply, 1);
            assert_eq!(mint.decimals, 0);
            assert_eq!(master_edition, MasterEditionRecord { supply: 2, max_supply: Some(50) });
            assert_eq!(metadata.name, "Pinned");
            assert_eq!(metadata.mint, mint_id());
            assert_eq!(metadata.edition_nonce, Some(254));
        }
        other => panic!("not a full view: {:?}", other),
    }
}

#[test]
fn full_lookup_fetches_mint_then_edition_then_metadata() {
    let ledger = full_ledger();
    look(LookupKind::FullNft, mint_id(), &ledger).unwrap();
    assert_eq!(ledger.asked(), vec![mint_id(), edition_id(), metadata_id()]);
}

#[test]
fn full_lookup_uses_the_pinned_addresses() {
    assert_eq!(
        metadata_id().bytes,
        [
            28, 236, 33, 23, 157, 216, 237, 151, 168, 114, 212, 192, 166, 152, 180, 181, 59, 162,
            196, 53, 148, 136, 97, 228, 57, 91, 47, 1, 47, 41, 63, 171
        ]
    );
    assert_eq!(
        edition_id().bytes,
        [
            6, 56, 160, 221, 96, 54, 29, 88, 103, 255, 35, 252, 173, 49, 221, 192, 77, 54, 13, 119,
            103, 135, 193, 84, 151, 157, 19, 112, 62, 177, 34, 185
        ]
    );
}

#[test]
fn a_missing_mint_aborts_the_full_lookup() {
    let ledger = full_ledger().without(mint_id());
    assert_eq!(
        look(LookupKind::FullNft, mint_id(), &ledger),
        Err(LookupError::FetchFailed { step: RecordKind::Mint, address: mint_id() })
    );
    assert_eq!(ledger.asked(), vec![mint_id()]);
}

#[test]
fn a_missing_master_edition_aborts_the_full_lookup() {
    let ledger = full_ledger().without(edition_id());
    assert_eq!(
        look(LookupKind::FullNft, mint_id(), &ledger),
        Err(LookupError::FetchFailed { step: RecordKind::MasterEdition, address: edition_id() })
    );
    assert_eq!(ledger.asked(), vec![mint_id(), edition_id()]);
}

#[test]
fn a_missing_metadata_aborts_the_full_lookup() {
    let ledger = full_ledger().without(metadata_id());
    assert_eq!(
        look(LookupKind::FullNft, mint_id(), &ledger),
        Err(LookupError::FetchFailed { step: RecordKind::Metadata, address: metadata_id() })
    );
    assert_eq!(ledger.asked(), vec![mint_id(), edition_id(), metadata_id()]);
}

#[test]
fn a_buffer_that_does_not_decode_aborts_the_full_lookup() {
    let mut short_mint = mint_data();
    short_mint.pop();
    let ledger = full_ledger().without(mint_id()).with(mint_id(), short_mint);
    assert_eq!(
        look(LookupKind::FullNft, mint_id(), &ledger),
        Err(LookupError::DecodeFailed {
            step: RecordKind::Mint,
            address: mint_id(),
            error: DecodeError::BufferTooShort,
        })
    );

    let ledger = full_ledger().without(edition_id()).with(edition_id(), metadata_data());
    assert_eq!(
        look(LookupKind::FullNft, mint_id(), &ledger),
        Err(LookupError::DecodeFailed {
            step: RecordKind::MasterEdition,
            address: edition_id(),
            error: DecodeError::BufferTooLong,
        })
    );

    let ledger = full_ledger().without(metadata_id()).with(metadata_id(), edition_data());
    assert_eq!(
        look(LookupKind::FullNft, mint_id(), &ledger),
        Err(LookupError::DecodeFailed {
            step: RecordKind::Metadata,
            address: metadata_id(),
            error: DecodeError::DiscriminatorMismatch { expected: 4, found: 6 },
        })
    );

    let mut bad_flag = metadata_data();
    let flag_at = bad_flag.iter().rposition(|b| *b == 254).unwrap() - 2;
    bad_flag[flag_at] = 9;
    let ledger = full_ledger().without(metadata_id()).with(metadata_id(), bad_flag);
    assert_eq!(
        look(LookupKind::FullNft, mint_id(), &ledger),
        Err(LookupError::DecodeFailed {
            step: RecordKind::Metadata,
            address: metadata_id(),
            error: DecodeError::MalformedField { detail: Field::IsMutable },
        })
    );
}

#[test]
fn single_lookups_fetch_the_root_only() {
    let root = Identifier::new([0x77; 32]);
    let cases: [(LookupKind, Vec<u8>, TypedRecord); 4] = [
        (LookupKind::Mint, mint_data(), TypedRecord::Mint(decode_mint(&mint_data()).unwrap())),
        (
            LookupKind::TokenAccount,
            account_data(),
            TypedRecord::TokenAccount(decode_token_account(&account_data()).unwrap()),
        ),
        (
            LookupKind::Metadata,
            metadata_data(),
            TypedRecord::Metadata(decode_metadata(&metadata_data()).unwrap()),
        ),
        (
            LookupKind::MasterEdition,
            edition_data(),
            TypedRecord::MasterEdition(decode_master_edition(&edition_data()).unwrap()),
        ),
    ];
    for (kind, data, record) in cases {
        let ledger = Ledger::new().with(root, data);
        assert_eq!(look(kind, root, &ledger), Ok(AssembledView::Single(record)));
        assert_eq!(ledger.asked(), vec![root]);
    }
}

#[test]
fn single_lookups_fail_on_the_root() {
    let root = Identifier::new([0x77; 32]);
    for (kind, step) in [
        (LookupKind::Mint, RecordKind::Mint),
        (LookupKind::TokenAccount, RecordKind::TokenAccount),
        (LookupKind::Metadata, RecordKind::Metadata),
        (LookupKind::MasterEdition, RecordKind::MasterEdition),
    ] {
        let ledger = Ledger::new();
        assert_eq!(
            look(kind, root, &ledger),
            Err(LookupError::FetchFailed { step, address: root })
        );
        let ledger = Ledger::new().with(root, vec![0u8; 5]);
        assert_eq!(
            look(kind, root, &ledger),
            Err(LookupError::DecodeFailed { step, address: root, error: DecodeError::BufferTooShort })
        );
    }
}

#[test]
fn a_lookup_names_what_it_waits_for() {
    let pending = start(LookupKind::FullNft, mint_id());
    assert_eq!(pending, Pending::NftMint { mint: mint_id() });
    assert_eq!(pending.address(), mint_id());
    assert_eq!(pending.kind(), RecordKind::Mint);

    let second = match advance(pending, Some(&mint_data())) {
        Next::Fetch(p) => p,
        other => panic!("no second fetch: {:?}", other),
    };
    assert_eq!(second.address(), edition_id());
    assert_eq!(second.kind(), RecordKind::MasterEdition);

    let third = match advance(second, Some(&edition_data())) {
        Next::Fetch(p) => p,
        other => panic!("no third fetch: {:?}", other),
    };
    assert_eq!(third.address(), metadata_id());
    assert_eq!(third.kind(), RecordKind::Metadata);

    match advance(third, Some(&metadata_data())) {
        Next::Done(AssembledView::FullNft { .. }) => {}
        other => panic!("not done: {:?}", other),
    }

    let single = start(LookupKind::TokenAccount, mint_id());
    assert_eq!(single, Pending::Single { kind: RecordKind::TokenAccount, address: mint_id() });
    assert_eq!(single.kind(), RecordKind::TokenAccount);
}

#[test]
fn lookup_is_advance_taken_step_by_step() {
    let roots = [mint_id(), Identifier::new([0x77; 32])];
    let kinds = [
        LookupKind::Mint,
        LookupKind::TokenAccount,
        LookupKind::Metadata,
        LookupKind::MasterEdition,
        LookupKind::FullNft,
    ];
    let ledgers = [
        full_ledger(),
        full_ledger().without(mint_id()),
        full_ledger().without(edition_id()),
        full_ledger().without(metadata_id()),
        full_ledger().with(Identifier::new([0x77; 32]), account_data()),
        Ledger::new(),
    ];
    for ledger in ledgers.iter() {
        for root in roots {
            for kind in kinds {
                let whole = look(kind, root, ledger);
                let asked_whole = ledger.asked();
                ledger.asked.borrow_mut().clear();
                let stepped = step_by_step(kind, root, ledger);
                let asked_stepped = ledger.asked();
                ledger.asked.borrow_mut().clear();
                assert_eq!(whole, stepped);
                assert_eq!(asked_whole, asked_stepped);
            }
        }
    }
}

#[test]
fn full_lookup_shows_the_later_fields_of_the_metadata() {
    let mut metadata = metadata_data();
    let nonce_at = metadata.iter().rposition(|b| *b == 254).unwrap();
    metadata[nonce_at + 1] = 1;
    metadata[nonce_at + 2] = 0;
    let ledger = full_ledger().without(metadata_id()).with(metadata_id(), metadata);
    match look(LookupKind::FullNft, mint_id(), &ledger) {
        Ok(AssembledView::FullNft { metadata, .. }) => {
            assert_eq!(metadata.token_standard, Some(TokenStandard::NonFungible));
            assert_eq!(metadata.collection, None);
            assert_eq!(metadata.uses, None);
        }
        other => panic!("not a full view: {:?}", other),
    }
}
