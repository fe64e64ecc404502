//! Address derivation and account-record decoding for tokens and their
//! metadata on a ledger whose accounts are raw byte buffers.
//!
//! * [`derivation`] derives an address from a program identifier and a list
//!   of seeds, by a search over bump bytes; [`addresses`] holds the two
//!   derivations that the metadata program uses.
//! * [`mint`], [`token_account`], [`metadata`] and [`master_edition`] each
//!   state the layout of one kind of record and decode it; [`record`]
//!   decodes a buffer as the kind asked for.
//! * [`lookup`] carries a lookup through its fetches: one record, or a mint
//!   with its master edition and its metadata.
//!
//! Nothing here reads from a network or writes to a terminal: buffers come
//! in as arguments, or through a function that the caller hands in.

pub mod identifier;
pub mod wire;
pub mod optional;
pub mod error;
pub mod derivation;
pub mod addresses;
pub mod mint;
pub mod token_account;
pub mod master_edition;
pub mod metadata;
pub mod record;
pub mod lookup;
