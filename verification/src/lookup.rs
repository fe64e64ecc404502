//! Looking a token up: which account to fetch next, and what to make of
//! what came back.
//!
//! A lookup of a single record fetches the account at the root identifier
//! and decodes it. A lookup of a full token takes the root for a mint and
//! fetches three accounts in turn: the mint, its master edition and its
//! metadata, the last two at addresses derived from the mint.
//!
//! The library does not fetch by itself. [`lookup`] takes the fetch as a
//! function and runs a lookup from its start to its end. Where the caller
//! cannot hand in such a function, the lookup can be taken a step at a
//! time: it is a value, [`Pending`], that names the account it waits for;
//! the caller fetches that account and hands the buffer, or the news that
//! there is none, to [`advance`], which asks for the next account or ends
//! the lookup with a view or with an error.

use crate::addresses::{
    edition_address, edition_seeds, metadata_address, metadata_program_bytes, metadata_seeds,
};
use crate::derivation::derive_outcome;
use crate::error::DecodeError;
use crate::identifier::Identifier;
use crate::master_edition::{decode_master_edition, MasterEditionRecord};
use crate::metadata::{decode_metadata, MetadataRecord, MetadataView};
use crate::mint::{decode_mint, MintRecord, MintView};
use crate::record::{decode, record_layout, RecordKind, TypedRecord, TypedView};
use vstd::prelude::*;

verus! {

/// What to look up.
#[derive(Clone, Copy, Debug, PartialEq, Eq, Structural)]
pub enum LookupKind {
    /// The mint record at the root.
    Mint,
    /// The token-account record at the root.
    TokenAccount,
    /// The metadata record at the root.
    Metadata,
    /// The master-edition record at the root.
    MasterEdition,
    /// The mint at the root with its master edition and its metadata.
    FullNft,
}

/// What a lookup found.
#[derive(Clone, Debug, PartialEq, Eq)]
pub enum AssembledView {
    /// The one record asked for.
    Single(TypedRecord),
    /// A mint, its master edition and its metadata. There is no view with
    /// fewer than all three.
    FullNft { mint: MintRecord, master_edition: MasterEditionRecord, metadata: MetadataRecord },
}

/// Why a lookup ended without a view: the step that failed, by the kind of
/// record it was after, and the address it failed on.
#[derive(Clone, Copy, Debug, PartialEq, Eq)]
pub enum LookupError {
    /// No address for the record of kind `step` could be derived from
    /// `mint`.
    AddressDerivationFailed { step: RecordKind, mint: Identifier },
    /// There was no account to fetch at `address`.
    FetchFailed { step: RecordKind, address: Identifier },
    /// The buffer fetched at `address` did not decode.
    DecodeFailed { step: RecordKind, address: Identifier, error: DecodeError },
}

/// A lookup that waits for an account.
#[derive(Clone, Copy, Debug, PartialEq, Eq)]
pub enum Pending {
    /// Waits for the one record, of kind `kind`, at `address`.
    Single { kind: RecordKind, address: Identifier },
    /// Waits for the mint of a full token.
    NftMint { mint: Identifier },
    /// Has the mint; waits for the master edition at `address`.
    NftEdition { mint: Identifier, address: Identifier, mint_record: MintRecord },
    /// Has the mint and the master edition; waits for the metadata at
    /// `address`.
    NftMetadata {
        mint: Identifier,
        address: Identifier,
        mint_record: MintRecord,
        edition: MasterEditionRecord,
    },
}

/// How a lookup goes on after an account was handed in.
#[derive(Clone, Debug, PartialEq, Eq)]
pub enum Next {
    /// Another account is needed.
    Fetch(Pending),
    /// The lookup is complete.
    Done(AssembledView),
    /// The lookup has failed.
    Failed(LookupError),
}

/// [`AssembledView`] by the views of its records.
pub enum Assembled {
    Single(TypedView),
    FullNft { mint: MintView, master_edition: MasterEditionRecord, metadata: MetadataView },
}

/// [`LookupError`] with its identifier as bytes.
pub enum LookupFailure {
    AddressDerivationFailed { step: RecordKind, mint: Seq<u8> },
    FetchFailed { step: RecordKind, address: Seq<u8> },
    DecodeFailed { step: RecordKind, address: Seq<u8>, error: DecodeError },
}

/// [`Pending`] with its identifiers as bytes and its records by their views.
pub enum PendingView {
    Single { kind: RecordKind, address: Seq<u8> },
    NftMint { mint: Seq<u8> },
    NftEdition { mint: Seq<u8>, address: Seq<u8>, mint_record: MintView },
    NftMetadata {
        mint: Seq<u8>,
        address: Seq<u8>,
        mint_record: MintView,
        edition: MasterEditionRecord,
    },
}

/// [`Next`] by the views of what it holds.
pub enum NextView {
    Fetch(PendingView),
    Done(Assembled),
    Failed(LookupFailure),
}

impl View for AssembledView {
    type V = Assembled;

    open spec fn view(&self) -> Assembled {
        match *self {
            AssembledView::Single(record) => Assembled::Single(record@),
            AssembledView::FullNft { mint, master_edition, metadata } => Assembled::FullNft {
                mint: mint@,
                master_edition,
                metadata: metadata@,
            },
        }
    }
}

impl View for LookupError {
    type V = LookupFailure;

    open spec fn view(&self) -> LookupFailure {
        match *self {
            LookupError::AddressDerivationFailed { step, mint } => {
                LookupFailure::AddressDerivationFailed { step, mint: mint@ }
            },
            LookupError::FetchFailed { step, address } => LookupFailure::FetchFailed {
                step,
                address: address@,
            },
            LookupError::DecodeFailed { step, address, error } => LookupFailure::DecodeFailed {
                step,
                address: address@,
                error,
            },
        }
    }
}

impl View for Pending {
    type V = PendingView;

    open spec fn view(&self) -> PendingView {
        match *self {
            Pending::Single { kind, address } => PendingView::Single { kind, address: address@ },
            Pending::NftMint { mint } => PendingView::NftMint { mint: mint@ },
            Pending::NftEdition { mint, address, mint_record } => PendingView::NftEdition {
                mint: mint@,
                address: address@,
                mint_record: mint_record@,
            },
            Pending::NftMetadata { mint, address, mint_record, edition } => {
                PendingView::NftMetadata {
                    mint: mint@,
                    address: address@,
                    mint_record: mint_record@,
                    edition,
                }
            },
        }
    }
}

impl View for Next {
    type V = NextView;

    open spec fn view(&self) -> NextView {
        match *self {
            Next::Fetch(pending) => NextView::Fetch(pending@),
            Next::Done(view) => NextView::Done(view@),
            Next::Failed(error) => NextView::Failed(error@),
        }
    }
}

impl PendingView {
    /// The address of the account that the lookup waits for.
    pub open spec fn address(self) -> Seq<u8> {
        match self {
            PendingView::Single { address, .. } => address,
            PendingView::NftMint { mint } => mint,
            PendingView::NftEdition { address, .. } => address,
            PendingView::NftMetadata { address, .. } => address,
        }
    }

    /// The kind of record that the lookup expects in that account.
    pub open spec fn kind(self) -> RecordKind {
        match self {
            PendingView::Single { kind, .. } => kind,
            PendingView::NftMint { .. } => RecordKind::Mint,
            PendingView::NftEdition { .. } => RecordKind::MasterEdition,
            PendingView::NftMetadata { .. } => RecordKind::Metadata,
        }
    }
}

/// The lookup of `kind` at `root` before anything was fetched.
pub open spec fn start_view(kind: LookupKind, root: Seq<u8>) -> PendingView {
    match kind {
        LookupKind::Mint => PendingView::Single { kind: RecordKind::Mint, address: root },
        LookupKind::TokenAccount => PendingView::Single {
            kind: RecordKind::TokenAccount,
            address: root,
        },
        LookupKind::Metadata => PendingView::Single { kind: RecordKind::Metadata, address: root },
        LookupKind::MasterEdition => PendingView::Single {
            kind: RecordKind::MasterEdition,
            address: root,
        },
        LookupKind::FullNft => PendingView::NftMint { mint: root },
    }
}

/// What follows once the awaited record is there.
pub open spec fn after_record(pending: PendingView, record: TypedView) -> NextView {
    match pending {
        PendingView::Single { .. } => NextView::Done(Assembled::Single(record)),
        PendingView::NftMint { mint } => match derive_outcome(
            metadata_program_bytes(),
            edition_seeds(mint),
        ) {
            Ok(derived) => NextView::Fetch(
                PendingView::NftEdition {
                    mint,
                    address: derived.address,
                    mint_record: record->Mint_0,
                },
            ),
            Err(_) => NextView::Failed(
                LookupFailure::AddressDerivationFailed { step: RecordKind::MasterEdition, mint },
            ),
        },
        PendingView::NftEdition { mint, mint_record, .. } => match derive_outcome(
            metadata_program_bytes(),
            metadata_seeds(mint),
        ) {
            Ok(derived) => NextView::Fetch(
                PendingView::NftMetadata {
                    mint,
                    address: derived.address,
                    mint_record,
                    edition: record->MasterEdition_0,
                },
            ),
            Err(_) => NextView::Failed(
                LookupFailure::AddressDerivationFailed { step: RecordKind::Metadata, mint },
            ),
        },
        PendingView::NftMetadata { mint_record, edition, .. } => NextView::Done(
            Assembled::FullNft {
                mint: mint_record,
                master_edition: edition,
                metadata: record->Metadata_0,
            },
        ),
    }
}

/// What follows once the fetch of the awaited account has been answered:
/// with `None` where there is no such account, else with its bytes.
pub open spec fn advance_view(pending: PendingView, fetched: Option<Seq<u8>>) -> NextView {
    match fetched {
        None => NextView::Failed(
            LookupFailure::FetchFailed { step: pending.kind(), address: pending.address() },
        ),
        Some(bytes) => match record_layout(pending.kind(), bytes) {
            Err(error) => NextView::Failed(
                LookupFailure::DecodeFailed {
                    step: pending.kind(),
                    address: pending.address(),
                    error,
                },
            ),
            Ok(record) => after_record(pending, record),
        },
    }
}

/// What was fetched, as bytes.
pub open spec fn fetched_view(fetched: Option<&[u8]>) -> Option<Seq<u8>> {
    match fetched {
        Some(bytes) => Some(bytes@),
        None => None,
    }
}

impl Pending {
    /// The address of the account that the lookup waits for.
    pub fn address(&self) -> (a: Identifier)
        ensures
            a@ == self@.address(),
    {
        match self {
            Pending::Single { address, .. } => *address,
            Pending::NftMint { mint } => *mint,
            Pending::NftEdition { address, .. } => *address,
            Pending::NftMetadata { address, .. } => *address,
        }
    }

    /// The kind of record that the lookup expects in that account.
    pub fn kind(&self) -> (k: RecordKind)
        ensures
            k == self@.kind(),
    {
        match self {
            Pending::Single { kind, .. } => *kind,
            Pending::NftMint { .. } => RecordKind::Mint,
            Pending::NftEdition { .. } => RecordKind::MasterEdition,
            Pending::NftMetadata { .. } => RecordKind::Metadata,
        }
    }
}

/// Begins a lookup. The first account wanted is always the one at `root`.
pub fn start(kind: LookupKind, root: Identifier) -> (pending: Pending)
    ensures
        pending@ == start_view(kind, root@),
        pending@.address() == root@,
{
    match kind {
        LookupKind::Mint => Pending::Single { kind: RecordKind::Mint, address: root },
        LookupKind::TokenAccount => Pending::Single {
            kind: RecordKind::TokenAccount,
            address: root,
        },
        LookupKind::Metadata => Pending::Single { kind: RecordKind::Metadata, address: root },
        LookupKind::MasterEdition => Pending::Single {
            kind: RecordKind::MasterEdition,
            address: root,
        },
        LookupKind::FullNft => Pending::NftMint { mint: root },
    }
}

/// Carries a lookup on with the answer to its fetch: `None` where there was
/// no account at the awaited address, else the bytes of the account.
///
/// A missing account or a buffer that does not decode ends the lookup with
/// an error that names the step and the address. Otherwise a lookup of one
/// record is done, and a lookup of a full token goes on to its next account
/// or, after the third, is done.
pub fn advance(pending: Pending, fetched: Option<&[u8]>) -> (next: Next)
    ensures
        next@ == advance_view(pending@, fetched_view(fetched)),
{
    let step = pending.kind();
    let address = pending.address();
    let bytes = match fetched {
        Some(bytes) => bytes,
        None => {
            return Next::Failed(LookupError::FetchFailed { step, address });
        },
    };
    match pending {
        Pending::Single { kind, .. } => match decode(bytes, kind) {
            Ok(record) => Next::Done(AssembledView::Single(record)),
            Err(error) => Next::Failed(LookupError::DecodeFailed { step, address, error }),
        },
        Pending::NftMint { mint } => match decode_mint(bytes) {
            Ok(mint_record) => match edition_address(&mint) {
                Ok(derived) => Next::Fetch(
                    Pending::NftEdition { mint, address: derived.address(), mint_record },
                ),
                Err(_) => Next::Failed(
                    LookupError::AddressDerivationFailed { step: RecordKind::MasterEdition, mint },
                ),
            },
            Err(error) => Next::Failed(LookupError::DecodeFailed { step, address, error }),
        },
        Pending::NftEdition { mint, mint_record, .. } => match decode_master_edition(bytes) {
            Ok(edition) => match metadata_address(&mint) {
                Ok(derived) => Next::Fetch(
                    Pending::NftMetadata {
                        mint,
                        address: derived.address(),
                        mint_record,
                        edition,
                    },
                ),
                Err(_) => Next::Failed(
                    LookupError::AddressDerivationFailed { step: RecordKind::Metadata, mint },
                ),
            },
            Err(error) => Next::Failed(LookupError::DecodeFailed { step, address, error }),
        },
        Pending::NftMetadata { mint_record, edition, .. } => match decode_metadata(bytes) {
            Ok(metadata) => Next::Done(
                AssembledView::FullNft { mint: mint_record, master_edition: edition, metadata },
            ),
            Err(error) => Next::Failed(LookupError::DecodeFailed { step, address, error }),
        },
    }
}

/// The lookup one step on: what [`advance`] makes of `answer` where the
/// lookup still waits for an account, and the end where it has ended.
pub open spec fn next_view(next: NextView, answer: Option<Seq<u8>>) -> NextView {
    match next {
        NextView::Fetch(pending) => advance_view(pending, answer),
        _ => next,
    }
}

/// The end of the lookup of `kind` at `root` when its fetches are answered
/// by `first`, `second` and `third`, in this order. An answer that the
/// lookup does not come to makes no difference.
pub open spec fn lookup_outcome(
    kind: LookupKind,
    root: Seq<u8>,
    first: Option<Seq<u8>>,
    second: Option<Seq<u8>>,
    third: Option<Seq<u8>>,
) -> NextView {
    next_view(next_view(advance_view(start_view(kind, root), first), second), third)
}

/// What was fetched, as bytes.
pub open spec fn buffer_view(fetched: Option<Vec<u8>>) -> Option<Seq<u8>> {
    match fetched {
        Some(bytes) => Some(bytes@),
        None => None,
    }
}

/// `answer` is something that `fetch` may give when asked for `address`.
pub open spec fn may_answer<F: Fn(&Identifier) -> Option<Vec<u8>>>(
    fetch: F,
    address: Seq<u8>,
    answer: Option<Seq<u8>>,
) -> bool {
    exists|id: Identifier, out: Option<Vec<u8>>|
        id@ == address && call_ensures(fetch, (&id,), out) && buffer_view(out) == answer
}

/// Each of the three answers that the lookup of `kind` at `root` comes to
/// is one that `fetch` may give for the address then awaited.
pub open spec fn answered_by<F: Fn(&Identifier) -> Option<Vec<u8>>>(
    fetch: F,
    kind: LookupKind,
    root: Seq<u8>,
    first: Option<Seq<u8>>,
    second: Option<Seq<u8>>,
    third: Option<Seq<u8>>,
) -> bool {
    let after_one = advance_view(start_view(kind, root), first);
    let after_two = next_view(after_one, second);
    &&& may_answer(fetch, root, first)
    &&& after_one matches NextView::Fetch(pending) ==> may_answer(fetch, pending.address(), second)
    &&& after_two matches NextView::Fetch(pending) ==> may_answer(fetch, pending.address(), third)
}

/// The end of a lookup as a result.
pub open spec fn result_view(r: Result<AssembledView, LookupError>) -> NextView {
    match r {
        Ok(view) => NextView::Done(view@),
        Err(error) => NextView::Failed(error@),
    }
}

/// Fetches the account that `pending` waits for and carries the lookup on.
fn step<F: Fn(&Identifier) -> Option<Vec<u8>>>(fetch: &F, pending: Pending) -> (next: Next)
    requires
        forall|id: &Identifier| call_requires(*fetch, (id,)),
    ensures
        exists|answer: Option<Seq<u8>>|
            may_answer(*fetch, pending@.address(), answer) && next@ == #[trigger] advance_view(
                pending@,
                answer,
            ),
{
    let address = pending.address();
    let fetched = fetch(&address);
    let bytes: Option<&[u8]> = match &fetched {
        Some(data) => Some(data.as_slice()),
        None => None,
    };
    let next = advance(pending, bytes);
    assert(may_answer(*fetch, pending@.address(), buffer_view(fetched)));
    assert(next@ == advance_view(pending@, buffer_view(fetched)));
    next
}

/// Looks `kind` up at `root`, fetching each account through `fetch`, which
/// answers with the bytes of the account at an address or with `None` where
/// there is none.
///
/// The accounts are fetched one after the other, each only once the one
/// before it has decoded: the root, and for a full token then the master
/// edition and then the metadata. The first fetch or decoding that fails
/// ends the lookup with its error. The result is that of [`advance`] taken
/// step by step over what `fetch` answered.
pub fn lookup<F: Fn(&Identifier) -> Option<Vec<u8>>>(
    kind: LookupKind,
    root: Identifier,
    fetch: F,
) -> (r: Result<AssembledView, LookupError>)
    requires
        forall|id: &Identifier| call_requires(fetch, (id,)),
    ensures
        exists|first: Option<Seq<u8>>, second: Option<Seq<u8>>, third: Option<Seq<u8>>|
            answered_by(fetch, kind, root@, first, second, third) && result_view(r)
                == #[trigger] lookup_outcome(kind, root@, first, second, third),
{
    let pending = start(kind, root);
    let after_one = step(&fetch, pending);
    let ghost first = choose|a: Option<Seq<u8>>|
        may_answer(fetch, pending@.address(), a) && after_one@ == #[trigger] advance_view(
            pending@,
            a,
        );
    let ghost mut second: Option<Seq<u8>> = None;
    let ghost mut third: Option<Seq<u8>> = None;
    let after_two = match after_one {
        Next::Fetch(waiting) => {
            let next = step(&fetch, waiting);
            proof {
                second = choose|a: Option<Seq<u8>>|
                    may_answer(fetch, waiting@.address(), a) && next@ == #[trigger] advance_view(
                        waiting@,
                        a,
                    );
            }
            next
        },
        ended => ended,
    };
    let after_three = match after_two {
        Next::Fetch(waiting) => {
            let next = step(&fetch, waiting);
            proof {
                third = choose|a: Option<Seq<u8>>|
                    may_answer(fetch, waiting@.address(), a) && next@ == #[trigger] advance_view(
                        waiting@,
                        a,
                    );
            }
            next
        },
        ended => ended,
    };
    proof {
        lemma_lookup_ends(kind, root@, first, second, third);
        assert(answered_by(fetch, kind, root@, first, second, third));
        assert(after_three@ == lookup_outcome(kind, root@, first, second, third));
    }
    match after_three {
        Next::Done(view) => Ok(view),
        Next::Failed(error) => Err(error),
        Next::Fetch(_) => vstd::pervasive::unreached(),
    }
}

/// The kind of the one record that a lookup other than that of a full token
/// is after.
pub open spec fn single_kind(kind: LookupKind) -> RecordKind {
    match kind {
        LookupKind::Mint => RecordKind::Mint,
        LookupKind::TokenAccount => RecordKind::TokenAccount,
        LookupKind::Metadata => RecordKind::Metadata,
        LookupKind::MasterEdition => RecordKind::MasterEdition,
        LookupKind::FullNft => RecordKind::Mint,
    }
}

/// A lookup of one record fetches the root once and is over: done with the
/// record that the buffer decodes to, or failed on the root.
pub proof fn lemma_single_lookup(
    kind: LookupKind,
    root: Seq<u8>,
    first: Option<Seq<u8>>,
    second: Option<Seq<u8>>,
    third: Option<Seq<u8>>,
)
    requires
        kind != LookupKind::FullNft,
    ensures
        lookup_outcome(kind, root, first, second, third) == match first {
            None => NextView::Failed(
                LookupFailure::FetchFailed { step: single_kind(kind), address: root },
            ),
            Some(bytes) => match record_layout(single_kind(kind), bytes) {
                Ok(record) => NextView::Done(Assembled::Single(record)),
                Err(error) => NextView::Failed(
                    LookupFailure::DecodeFailed { step: single_kind(kind), address: root, error },
                ),
            },
        },
{
}

/// A lookup is over after three fetches at the latest.
pub proof fn lemma_lookup_ends(
    kind: LookupKind,
    root: Seq<u8>,
    first: Option<Seq<u8>>,
    second: Option<Seq<u8>>,
    third: Option<Seq<u8>>,
)
    ensures
        !(lookup_outcome(kind, root, first, second, third) is Fetch),
{
}

/// A lookup of a full token is done only when all three accounts were there
/// and decoded, and then the view holds exactly what the three buffers
/// decode to: the first as the mint, the second as the master edition, the
/// third as the metadata. So one missing account, or one buffer that does
/// not decode, leaves no view at all.
pub proof fn lemma_full_lookup_is_whole(
    root: Seq<u8>,
    first: Option<Seq<u8>>,
    second: Option<Seq<u8>>,
    third: Option<Seq<u8>>,
)
    requires
        lookup_outcome(LookupKind::FullNft, root, first, second, third) is Done,
    ensures
        first is Some && second is Some && third is Some,
        record_layout(RecordKind::Mint, first->0) is Ok,
        record_layout(RecordKind::MasterEdition, second->0) is Ok,
        record_layout(RecordKind::Metadata, third->0) is Ok,
        lookup_outcome(LookupKind::FullNft, root, first, second, third) == NextView::Done(
            Assembled::FullNft {
                mint: record_layout(RecordKind::Mint, first->0)->Ok_0->Mint_0,
                master_edition: record_layout(
                    RecordKind::MasterEdition,
                    second->0,
                )->Ok_0->MasterEdition_0,
                metadata: record_layout(RecordKind::Metadata, third->0)->Ok_0->Metadata_0,
            },
        ),
{
}

/// A lookup that finds no account where it asks for one fails on that
/// account, whichever step it is at: for a full token the mint at the root,
/// the address derived for the master edition or the one derived for the
/// metadata.
pub proof fn lemma_missing_account_fails(pending: PendingView)
    ensures
        advance_view(pending, None) == NextView::Failed(
            LookupFailure::FetchFailed { step: pending.kind(), address: pending.address() },
        ),
{
}

/// The two derived accounts of a full token are fetched at the addresses
/// that the metadata program derives from the mint: the master edition
/// second, the metadata third.
pub proof fn lemma_full_lookup_addresses(pending: PendingView, fetched: Option<Seq<u8>>)
    requires
        advance_view(pending, fetched) is Fetch,
    ensures
        match pending {
            PendingView::Single { .. } => false,
            PendingView::NftMint { mint } => derive_outcome(
                metadata_program_bytes(),
                edition_seeds(mint),
            ) matches Ok(derived) && (advance_view(pending, fetched)->Fetch_0).address()
                == derived.address,
            PendingView::NftEdition { mint, .. } => derive_outcome(
                metadata_program_bytes(),
                metadata_seeds(mint),
            ) matches Ok(derived) && (advance_view(pending, fetched)->Fetch_0).address()
                == derived.address,
            PendingView::NftMetadata { .. } => false,
        },
{
}

} // verus!
