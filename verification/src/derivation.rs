//! Derived addresses: an identifier computed from a program identifier and
//! an ordered list of seeds, found by a search over bump bytes.

use crate::identifier::Identifier;
use solana_program::pubkey::Pubkey;
use vstd::prelude::*;

verus! {

/// Longest seed, in bytes.
pub const MAX_SEED_LEN: usize = 32;

/// Most seeds a set can hold; the bump byte takes one more place.
pub const MAX_SEEDS: usize = 15;

/// What `Pubkey::create_program_address` makes of a list of seeds and a
/// program identifier: the address, or `None` where it reports an error.
pub uninterp spec fn program_address(seeds: Seq<Seq<u8>>, program: Seq<u8>) -> Option<Seq<u8>>;

/// What `Pubkey::is_on_curve` answers for 32 bytes: whether they decompress
/// to a point of the curve, and so could be a signing key.
pub uninterp spec fn is_curve_point(bytes: Seq<u8>) -> bool;

/// The bytes of each seed, in order.
pub open spec fn seed_bytes(seeds: Seq<Vec<u8>>) -> Seq<Seq<u8>> {
    Seq::new(seeds.len(), |i: int| seeds[i]@)
}

/// The candidate address for one bump byte: the seeds, then the bump as a
/// last seed of one byte.
pub open spec fn candidate(program: Seq<u8>, seeds: Seq<Seq<u8>>, bump: int) -> Option<Seq<u8>> {
    program_address(seeds.push(seq![bump as u8]), program)
}

/// The highest bump not above `top` whose candidate is an address.
pub open spec fn highest_bump(program: Seq<u8>, seeds: Seq<Seq<u8>>, top: int) -> Option<int>
    decreases top + 1,
{
    if top < 0 {
        None
    } else if candidate(program, seeds, top) is Some {
        Some(top)
    } else {
        highest_bump(program, seeds, top - 1)
    }
}

/// An address together with the bump byte that produced it.
pub struct DerivedView {
    pub address: Seq<u8>,
    pub bump: u8,
}

/// What derivation yields: the candidate of the highest bump in `0..=255`
/// that has one, or `None` when no bump has.
pub open spec fn derived(program: Seq<u8>, seeds: Seq<Seq<u8>>) -> Option<DerivedView> {
    match highest_bump(program, seeds, 255) {
        Some(bump) => Some(
            DerivedView { address: candidate(program, seeds, bump)->0, bump: bump as u8 },
        ),
        None => None,
    }
}

/// `d` is the address of the first bump, walking down from 255, that has one.
pub open spec fn is_derivation(program: Seq<u8>, seeds: Seq<Seq<u8>>, d: DerivedView) -> bool {
    &&& candidate(program, seeds, d.bump as int) == Some(d.address)
    &&& forall|b: int| d.bump < b <= 255 ==> candidate(program, seeds, b) is None
}

/// Calls `Pubkey::create_program_address` on the seeds followed by the bump
/// byte as a last seed. The contract claims that the result is the address
/// which that function returns, `None` where it returns an error, and that
/// an address it returns is never a point of the curve: the function
/// refuses a hash that is one.
#[verifier::external_body]
fn create_program_address(program: &Identifier, seeds: &Vec<Vec<u8>>, bump: u8) -> (r: Option<
    Identifier,
>)
    ensures
        r matches Some(a) ==> program_address(seed_bytes(seeds@).push(seq![bump]), program@)
            == Some(a@),
        r is None ==> program_address(seed_bytes(seeds@).push(seq![bump]), program@) is None,
        r matches Some(a) ==> !is_curve_point(a@),
{
    let last = [bump];
    let mut parts: Vec<&[u8]> = seeds.iter().map(|s| s.as_slice()).collect();
    parts.push(&last);
    Pubkey::create_program_address(&parts, &Pubkey::new_from_array(program.bytes)).ok().map(
        |key| Identifier { bytes: key.to_bytes() },
    )
}

/// Calls `Pubkey::is_on_curve` on the 32 bytes. The contract gives the
/// answer its name and claims no more of it.
#[verifier::external_body]
fn on_curve(id: &Identifier) -> (r: bool)
    ensures
        r == is_curve_point(id@),
{
    Pubkey::new_from_array(id.bytes).is_on_curve()
}

impl Identifier {
    /// Whether the identifier is a point of the curve, that is, a possible
    /// signing key.
    pub fn is_on_curve(&self) -> (r: bool)
        ensures
            r == is_curve_point(self@),
    {
        on_curve(self)
    }
}

/// Why a seed was not taken into a set.
#[derive(Clone, Copy, Debug, PartialEq, Eq, Structural)]
pub enum SeedError {
    /// The seed has more than 32 bytes.
    SeedTooLong,
    /// The set already holds 15 seeds.
    TooManySeeds,
}

/// An ordered list of seeds: at most 15 of them, none longer than 32 bytes.
#[derive(Debug)]
pub struct SeedSet {
    seeds: Vec<Vec<u8>>,
}

impl View for SeedSet {
    type V = Seq<Seq<u8>>;

    closed spec fn view(&self) -> Seq<Seq<u8>> {
        seed_bytes(self.seeds@)
    }
}

/// The limits every seed set keeps.
pub open spec fn seeds_within_limits(seeds: Seq<Seq<u8>>) -> bool {
    &&& seeds.len() <= MAX_SEEDS
    &&& forall|i: int| 0 <= i < seeds.len() ==> (#[trigger] seeds[i]).len() <= MAX_SEED_LEN
}

impl SeedSet {
    #[verifier::type_invariant]
    spec fn within_limits(self) -> bool {
        seeds_within_limits(seed_bytes(self.seeds@))
    }

    /// Takes a list of seeds as a set, if it keeps the limits: more than 15
    /// seeds are refused first, then a seed of more than 32 bytes.
    pub fn new(seeds: Vec<Vec<u8>>) -> (r: Result<SeedSet, SeedError>)
        ensures
            seeds@.len() > MAX_SEEDS ==> r is Err && r->Err_0 == SeedError::TooManySeeds,
            seeds@.len() <= MAX_SEEDS && !seeds_within_limits(seed_bytes(seeds@)) ==> r is Err
                && r->Err_0 == SeedError::SeedTooLong,
            seeds_within_limits(seed_bytes(seeds@)) ==> r is Ok && r->Ok_0@ == seed_bytes(seeds@),
    {
        if seeds.len() > MAX_SEEDS {
            return Err(SeedError::TooManySeeds);
        }
        let mut i: usize = 0;
        while i < seeds.len()
            invariant
                i <= seeds@.len() <= MAX_SEEDS,
                forall|j: int|
                    0 <= j < i ==> (#[trigger] seed_bytes(seeds@)[j]).len() <= MAX_SEED_LEN,
            decreases seeds@.len() - i,
        {
            if seeds[i].len() > MAX_SEED_LEN {
                assert(seed_bytes(seeds@)[i as int].len() > MAX_SEED_LEN);
                return Err(SeedError::SeedTooLong);
            }
            i = i + 1;
        }
        Ok(SeedSet { seeds })
    }

    /// Number of seeds in the set.
    pub fn len(&self) -> (n: usize)
        ensures
            n == self@.len(),
            n <= MAX_SEEDS,
    {
        proof {
            use_type_invariant(self);
        }
        self.seeds.len()
    }
}

/// Why no address came out of a derivation.
#[derive(Clone, Copy, Debug, PartialEq, Eq, Structural)]
pub enum DeriveError {
    /// Every one of the 256 bump bytes gave a candidate that was refused.
    NoValidBumpFound,
}

/// A derived address and the bump byte that produced it. Only a derivation
/// makes one.
#[derive(Clone, Copy, Debug, PartialEq, Eq)]
pub struct DerivedAddress {
    address: Identifier,
    bump: u8,
}

impl View for DerivedAddress {
    type V = DerivedView;

    closed spec fn view(&self) -> DerivedView {
        DerivedView { address: self.address@, bump: self.bump }
    }
}

impl DerivedAddress {
    /// The derived identifier.
    pub fn address(&self) -> (a: Identifier)
        ensures
            a@ == self@.address,
    {
        self.address
    }

    /// The bump byte that produced the address.
    pub fn bump(&self) -> (b: u8)
        ensures
            b == self@.bump,
    {
        self.bump
    }
}

/// What a derivation returns for each outcome of the search.
pub open spec fn derive_outcome(program: Seq<u8>, seeds: Seq<Seq<u8>>) -> Result<
    DerivedView,
    DeriveError,
> {
    match derived(program, seeds) {
        Some(d) => Ok(d),
        None => Err(DeriveError::NoValidBumpFound),
    }
}

/// The view of a derivation's result.
pub open spec fn derive_result_view(r: Result<DerivedAddress, DeriveError>) -> Result<
    DerivedView,
    DeriveError,
> {
    match r {
        Ok(d) => Ok(d@),
        Err(e) => Err(e),
    }
}

/// The search itself, on seeds in any number and of any length.
pub(crate) fn search(program: &Identifier, seeds: &Vec<Vec<u8>>) -> (r: Result<
    DerivedAddress,
    DeriveError,
>)
    ensures
        derive_result_view(r) == derive_outcome(program@, seed_bytes(seeds@)),
        r matches Ok(d) ==> !is_curve_point(d@.address),
{
    let mut bump: u8 = 255;
    loop
        invariant
            highest_bump(program@, seed_bytes(seeds@), 255) == highest_bump(
                program@,
                seed_bytes(seeds@),
                bump as int,
            ),
        decreases bump,
    {
        match create_program_address(program, seeds, bump) {
            Some(address) => {
                return Ok(DerivedAddress { address, bump });
            },
            None => {},
        }
        if bump == 0 {
            assert(highest_bump(program@, seed_bytes(seeds@), -1) is None);
            return Err(DeriveError::NoValidBumpFound);
        }
        bump = bump - 1;
    }
}

/// Derives the address that `program` owns under `seeds`.
///
/// Candidates are tried for the bump bytes 255, 254, and so on down to 0;
/// the first bump whose candidate is an address is taken. The address is
/// never a point of the curve. Equal inputs give equal results.
pub fn derive(program: &Identifier, seeds: &SeedSet) -> (r: Result<DerivedAddress, DeriveError>)
    ensures
        derive_result_view(r) == derive_outcome(program@, seeds@),
        r matches Ok(d) ==> is_derivation(program@, seeds@, d@) && !is_curve_point(d@.address),
        r is Err ==> forall|b: int| 0 <= b <= 255 ==> candidate(program@, seeds@, b) is None,
{
    proof {
        lemma_derived_is_first(program@, seeds@);
    }
    search(program, &seeds.seeds)
}

/// The outcome of the search is the first bump that has an address, walking
/// down from 255; there is none exactly when no bump in `0..=255` has one.
pub proof fn lemma_derived_is_first(program: Seq<u8>, seeds: Seq<Seq<u8>>)
    ensures
        match derived(program, seeds) {
            Some(d) => is_derivation(program, seeds, d),
            None => forall|b: int| 0 <= b <= 255 ==> candidate(program, seeds, b) is None,
        },
{
    lemma_highest_bump(program, seeds, 255);
}

/// `highest_bump` finds a bump in `0..=top` with an address and none above
/// it has one, or finds none and none has one.
proof fn lemma_highest_bump(program: Seq<u8>, seeds: Seq<Seq<u8>>, top: int)
    requires
        -1 <= top <= 255,
    ensures
        match highest_bump(program, seeds, top) {
            Some(b) => 0 <= b <= top && candidate(program, seeds, b) is Some && forall|c: int|
                b < c <= top ==> candidate(program, seeds, c) is None,
            None => forall|c: int| 0 <= c <= top ==> candidate(program, seeds, c) is None,
        },
    decreases top + 1,
{
    if top >= 0 && candidate(program, seeds, top) is None {
        lemma_highest_bump(program, seeds, top - 1);
    }
}

/// Two derivations from the same program and seeds agree in address and in
/// bump.
pub proof fn lemma_derivation_unique(
    program: Seq<u8>,
    seeds: Seq<Seq<u8>>,
    a: DerivedView,
    b: DerivedView,
)
    requires
        is_derivation(program, seeds, a),
        is_derivation(program, seeds, b),
    ensures
        a == b,
{
    if a.bump < b.bump {
        assert(candidate(program, seeds, b.bump as int) is None);
    } else if b.bump < a.bump {
        assert(candidate(program, seeds, a.bump as int) is None);
    }
}

/// A derivation, wherever it is found, is the outcome of the search.
pub proof fn lemma_derivation_is_outcome(program: Seq<u8>, seeds: Seq<Seq<u8>>, d: DerivedView)
    requires
        is_derivation(program, seeds, d),
    ensures
        derive_outcome(program, seeds) == Ok::<DerivedView, DeriveError>(d),
{
    lemma_derived_is_first(program, seeds);
    match derived(program, seeds) {
        Some(e) => {
            lemma_derivation_unique(program, seeds, d, e);
        },
        None => {
            assert(candidate(program, seeds, d.bump as int) is None);
        },
    }
}

} // verus!
