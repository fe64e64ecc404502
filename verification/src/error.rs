//! Why a buffer was not decoded.

use vstd::prelude::*;

verus! {

/// A field of a record that can be found malformed.
#[derive(Clone, Copy, Debug, PartialEq, Eq, Structural)]
pub enum Field {
    /// Mint: the marker of the mint authority.
    MintAuthority,
    /// Mint: the initialized flag.
    IsInitialized,
    /// Mint: the marker of the freeze authority.
    FreezeAuthority,
    /// Token account: the marker of the delegate.
    Delegate,
    /// Token account: the state byte.
    State,
    /// Token account: the marker of the native reserve.
    IsNative,
    /// Token account: the marker of the close authority.
    CloseAuthority,
    /// Metadata: the name.
    Name,
    /// Metadata: the symbol.
    Symbol,
    /// Metadata: the URI.
    Uri,
    /// Metadata: the seller fee.
    SellerFeeBasisPoints,
    /// Metadata: the list of creators.
    Creators,
    /// Metadata: the flag of the primary sale.
    PrimarySaleHappened,
    /// Metadata: the flag that allows changes.
    IsMutable,
    /// Metadata: the edition nonce.
    EditionNonce,
    /// Master edition: the greatest supply.
    MaxSupply,
}

/// Why a buffer was not decoded. The checks run in this order: length, then
/// discriminator, then the fields from first to last; the first one that
/// fails names the error, and no record is returned.
#[derive(Clone, Copy, Debug, PartialEq, Eq, Structural)]
pub enum DecodeError {
    /// The buffer has fewer bytes than the least the kind admits.
    BufferTooShort,
    /// The buffer has more bytes than the most the kind admits.
    BufferTooLong,
    /// The first byte is not the tag of the expected kind.
    DiscriminatorMismatch { expected: u8, found: u8 },
    /// A field does not hold what its place in the layout allows: a flag or
    /// marker outside its values, a length that runs past the end of the
    /// buffer, or text that is not UTF-8.
    MalformedField { detail: Field },
}

/// The result of a decoder with the record replaced by its view.
pub open spec fn decoded_view<T: View>(r: Result<T, DecodeError>) -> Result<T::V, DecodeError> {
    match r {
        Ok(record) => Ok(record@),
        Err(e) => Err(e),
    }
}

} // verus!
