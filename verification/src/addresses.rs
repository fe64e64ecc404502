//! The two addresses that the metadata program derives from a mint: that of
//! the metadata record and that of the master-edition record.

use crate::derivation::{
    derive_outcome, derive_result_view, is_curve_point, search, seed_bytes, DeriveError,
    DerivedAddress,
};
use crate::identifier::Identifier;
use vstd::prelude::*;
use vstd::slice::slice_to_vec;

verus! {

/// The identifier of the metadata program
/// (`metaqbxxUerdq28cj1RbAWkYQm3ybzjb6a8bt518x1s`).
pub open spec fn metadata_program_bytes() -> Seq<u8> {
    seq![
        11u8, 112, 101, 177, 227, 209, 124, 69, 56, 157, 82, 127, 107, 4, 195, 205, 88, 184, 108,
        115, 26, 160, 253, 181, 73, 182, 209, 188, 3, 248, 41, 70,
    ]
}

/// The ASCII bytes of `metadata`, the first seed of both derivations.
pub open spec fn metadata_prefix() -> Seq<u8> {
    seq![109u8, 101, 116, 97, 100, 97, 116, 97]
}

/// The ASCII bytes of `edition`, the last seed of the master-edition
/// derivation.
pub open spec fn edition_suffix() -> Seq<u8> {
    seq![101u8, 100, 105, 116, 105, 111, 110]
}

/// The seeds of a mint's metadata address: `metadata`, the program, the mint.
pub open spec fn metadata_seeds(mint: Seq<u8>) -> Seq<Seq<u8>> {
    seq![metadata_prefix(), metadata_program_bytes(), mint]
}

/// The seeds of a mint's master-edition address: `metadata`, the program,
/// the mint, `edition`.
pub open spec fn edition_seeds(mint: Seq<u8>) -> Seq<Seq<u8>> {
    seq![metadata_prefix(), metadata_program_bytes(), mint, edition_suffix()]
}

/// The identifier of the metadata program.
pub fn metadata_program() -> (id: Identifier)
    ensures
        id@ == metadata_program_bytes(),
{
    let bytes: [u8; 32] = [
        11, 112, 101, 177, 227, 209, 124, 69, 56, 157, 82, 127, 107, 4, 195, 205, 88, 184, 108,
        115, 26, 160, 253, 181, 73, 182, 209, 188, 3, 248, 41, 70,
    ];
    assert(bytes@ =~= metadata_program_bytes());
    Identifier { bytes }
}

fn prefix_seed() -> (seed: Vec<u8>)
    ensures
        seed@ == metadata_prefix(),
{
    let bytes: [u8; 8] = [109, 101, 116, 97, 100, 97, 116, 97];
    assert(bytes@ =~= metadata_prefix());
    slice_to_vec(bytes.as_slice())
}

fn suffix_seed() -> (seed: Vec<u8>)
    ensures
        seed@ == edition_suffix(),
{
    let bytes: [u8; 7] = [101, 100, 105, 116, 105, 111, 110];
    assert(bytes@ =~= edition_suffix());
    slice_to_vec(bytes.as_slice())
}

/// The address of the metadata record of `mint`.
pub fn metadata_address(mint: &Identifier) -> (r: Result<DerivedAddress, DeriveError>)
    ensures
        derive_result_view(r) == derive_outcome(metadata_program_bytes(), metadata_seeds(mint@)),
        r matches Ok(d) ==> !is_curve_point(d@.address),
{
    let program = metadata_program();
    let mut seeds: Vec<Vec<u8>> = Vec::new();
    seeds.push(prefix_seed());
    seeds.push(slice_to_vec(program.bytes.as_slice()));
    seeds.push(slice_to_vec(mint.bytes.as_slice()));
    assert(seed_bytes(seeds@) =~= metadata_seeds(mint@));
    search(&program, &seeds)
}

/// The address of the master-edition record of `mint`.
pub fn edition_address(mint: &Identifier) -> (r: Result<DerivedAddress, DeriveError>)
    ensures
        derive_result_view(r) == derive_outcome(metadata_program_bytes(), edition_seeds(mint@)),
        r matches Ok(d) ==> !is_curve_point(d@.address),
{
    let program = metadata_program();
    let mut seeds: Vec<Vec<u8>> = Vec::new();
    seeds.push(prefix_seed());
    seeds.push(slice_to_vec(program.bytes.as_slice()));
    seeds.push(slice_to_vec(mint.bytes.as_slice()));
    seeds.push(suffix_seed());
    assert(seed_bytes(seeds@) =~= edition_seeds(mint@));
    search(&program, &seeds)
}

} // verus!
