//! The token-account record: one holder's balance of one mint, in a layout
//! of exactly 165 bytes.
//!
//! | bytes      | field                                  |
//! |------------|----------------------------------------|
//! | 0..32      | mint                                   |
//! | 32..64     | owner                                  |
//! | 64..72     | amount, little-endian                  |
//! | 72..108    | delegate, optional identifier          |
//! | 108        | state: 0, 1 or 2                       |
//! | 109..121   | native reserve, optional 64-bit number |
//! | 121..129   | delegated amount, little-endian        |
//! | 129..165   | close authority, optional identifier   |

use crate::error::{decoded_view, DecodeError, Field};
use crate::identifier::Identifier;
use crate::optional::{
    key_view, key_well_formed, lemma_optional_key_at, lemma_optional_key_window,
    lemma_optional_u64_at, lemma_optional_u64_window, optional_key_at, optional_key_bytes,
    optional_u64_at, optional_u64_bytes, push_key, push_optional_key, push_optional_u64,
    read_optional_key, read_optional_u64, zeros,
};
use crate::wire::{
    le_u64, lemma_join, lemma_parts, lemma_u64_at, lemma_u64_value_bytes, push_u64, read_u64,
    u64_le_bytes,
};
use vstd::prelude::*;

verus! {

/// Length of a token-account record.
pub const TOKEN_ACCOUNT_LEN: usize = 165;

/// The state of a token account.
#[derive(Clone, Copy, Debug, PartialEq, Eq, Structural)]
pub enum AccountState {
    /// Not yet initialized.
    Uninitialized,
    /// In use.
    Initialized,
    /// Frozen by the freeze authority of the mint.
    Frozen,
}

/// The state that a state byte stands for, if it stands for one.
pub open spec fn state_of(byte: u8) -> Option<AccountState> {
    if byte == 0 {
        Some(AccountState::Uninitialized)
    } else if byte == 1 {
        Some(AccountState::Initialized)
    } else if byte == 2 {
        Some(AccountState::Frozen)
    } else {
        None
    }
}

/// The byte that stands for a state.
pub open spec fn state_byte(state: AccountState) -> u8 {
    match state {
        AccountState::Uninitialized => 0,
        AccountState::Initialized => 1,
        AccountState::Frozen => 2,
    }
}

/// A decoded token-account record.
#[derive(Clone, Copy, Debug, PartialEq, Eq)]
pub struct TokenAccountRecord {
    /// The mint whose tokens the account holds.
    pub mint: Identifier,
    /// The owner of the account.
    pub owner: Identifier,
    /// Tokens held.
    pub amount: u64,
    /// Who may spend the delegated amount, if anyone.
    pub delegate: Option<Identifier>,
    /// The state of the account.
    pub state: AccountState,
    /// For an account of wrapped native tokens, the reserve it must keep.
    pub is_native: Option<u64>,
    /// Tokens the delegate may spend.
    pub delegated_amount: u64,
    /// Who may close the account, if not the owner.
    pub close_authority: Option<Identifier>,
}

/// A token-account record with its identifiers as byte sequences.
pub struct TokenAccountView {
    pub mint: Seq<u8>,
    pub owner: Seq<u8>,
    pub amount: u64,
    pub delegate: Option<Seq<u8>>,
    pub state: AccountState,
    pub is_native: Option<u64>,
    pub delegated_amount: u64,
    pub close_authority: Option<Seq<u8>>,
}

impl View for TokenAccountRecord {
    type V = TokenAccountView;

    open spec fn view(&self) -> TokenAccountView {
        TokenAccountView {
            mint: self.mint@,
            owner: self.owner@,
            amount: self.amount,
            delegate: key_view(self.delegate),
            state: self.state,
            is_native: self.is_native,
            delegated_amount: self.delegated_amount,
            close_authority: key_view(self.close_authority),
        }
    }
}

impl TokenAccountView {
    /// Every identifier has 32 bytes.
    pub open spec fn well_formed(self) -> bool {
        &&& self.mint.len() == 32
        &&& self.owner.len() == 32
        &&& key_well_formed(self.delegate)
        &&& key_well_formed(self.close_authority)
    }
}

/// What a buffer holds when read as a token-account record: the record, or
/// the first check that fails.
pub open spec fn token_account_layout(b: Seq<u8>) -> Result<TokenAccountView, DecodeError> {
    if b.len() < TOKEN_ACCOUNT_LEN {
        Err(DecodeError::BufferTooShort)
    } else if b.len() > TOKEN_ACCOUNT_LEN {
        Err(DecodeError::BufferTooLong)
    } else if optional_key_at(b, 72) is None {
        Err(DecodeError::MalformedField { detail: Field::Delegate })
    } else if state_of(b[108]) is None {
        Err(DecodeError::MalformedField { detail: Field::State })
    } else if optional_u64_at(b, 109) is None {
        Err(DecodeError::MalformedField { detail: Field::IsNative })
    } else if optional_key_at(b, 129) is None {
        Err(DecodeError::MalformedField { detail: Field::CloseAuthority })
    } else {
        Ok(
            TokenAccountView {
                mint: b.subrange(0, 32),
                owner: b.subrange(32, 64),
                amount: le_u64(b, 64),
                delegate: optional_key_at(b, 72)->0,
                state: state_of(b[108])->0,
                is_native: optional_u64_at(b, 109)->0,
                delegated_amount: le_u64(b, 121),
                close_authority: optional_key_at(b, 129)->0,
            },
        )
    }
}

/// The 165 bytes of a token-account record.
pub open spec fn token_account_bytes(a: TokenAccountView) -> Seq<u8> {
    a.mint + a.owner + u64_le_bytes(a.amount) + optional_key_bytes(a.delegate) + seq![
        state_byte(a.state),
    ] + optional_u64_bytes(a.is_native) + u64_le_bytes(a.delegated_amount) + optional_key_bytes(
        a.close_authority,
    )
}

fn read_state(byte: u8) -> (r: Option<AccountState>)
    ensures
        r == state_of(byte),
{
    if byte == 0 {
        Some(AccountState::Uninitialized)
    } else if byte == 1 {
        Some(AccountState::Initialized)
    } else if byte == 2 {
        Some(AccountState::Frozen)
    } else {
        None
    }
}

fn state_to_byte(state: AccountState) -> (byte: u8)
    ensures
        byte == state_byte(state),
{
    match state {
        AccountState::Uninitialized => 0,
        AccountState::Initialized => 1,
        AccountState::Frozen => 2,
    }
}

/// Decodes a token-account record.
pub fn decode_token_account(buf: &[u8]) -> (r: Result<TokenAccountRecord, DecodeError>)
    ensures
        decoded_view(r) == token_account_layout(buf@),
{
    if buf.len() < TOKEN_ACCOUNT_LEN {
        return Err(DecodeError::BufferTooShort);
    }
    if buf.len() > TOKEN_ACCOUNT_LEN {
        return Err(DecodeError::BufferTooLong);
    }
    let mint = Identifier::read(buf, 0);
    let owner = Identifier::read(buf, 32);
    let amount: u64 = read_u64(buf, 64);
    let delegate = match read_optional_key(buf, 72) {
        Some(key) => key,
        None => {
            return Err(DecodeError::MalformedField { detail: Field::Delegate });
        },
    };
    let state = match read_state(buf[108]) {
        Some(state) => state,
        None => {
            return Err(DecodeError::MalformedField { detail: Field::State });
        },
    };
    let is_native = match read_optional_u64(buf, 109) {
        Some(reserve) => reserve,
        None => {
            return Err(DecodeError::MalformedField { detail: Field::IsNative });
        },
    };
    let delegated_amount: u64 = read_u64(buf, 121);
    let close_authority = match read_optional_key(buf, 129) {
        Some(key) => key,
        None => {
            return Err(DecodeError::MalformedField { detail: Field::CloseAuthority });
        },
    };
    Ok(
        TokenAccountRecord {
            mint,
            owner,
            amount,
            delegate,
            state,
            is_native,
            delegated_amount,
            close_authority,
        },
    )
}

impl TokenAccountRecord {
    /// The 165 bytes of the record. They decode to the record again.
    pub fn encode(&self) -> (out: Vec<u8>)
        ensures
            out@ == token_account_bytes(self@),
            out@.len() == TOKEN_ACCOUNT_LEN,
            token_account_layout(out@) == Ok::<TokenAccountView, DecodeError>(self@),
    {
        let mut out: Vec<u8> = Vec::new();
        push_key(&mut out, &self.mint);
        push_key(&mut out, &self.owner);
        push_u64(&mut out, self.amount);
        push_optional_key(&mut out, &self.delegate);
        out.push(state_to_byte(self.state));
        push_optional_u64(&mut out, self.is_native);
        push_u64(&mut out, self.delegated_amount);
        push_optional_key(&mut out, &self.close_authority);
        assert(out@ =~= token_account_bytes(self@));
        proof {
            lemma_token_account_decodes_what_was_encoded(self@);
        }
        out
    }
}

/// The bytes written for a record decode to that record, so that decoding
/// them and encoding what came out gives the same bytes again.
pub proof fn lemma_token_account_decodes_what_was_encoded(a: TokenAccountView)
    requires
        a.well_formed(),
    ensures
        token_account_bytes(a).len() == TOKEN_ACCOUNT_LEN,
        token_account_layout(token_account_bytes(a)) == Ok::<TokenAccountView, DecodeError>(a),
        token_account_bytes(token_account_layout(token_account_bytes(a))->Ok_0)
            == token_account_bytes(a),
{
    let b = token_account_bytes(a);
    let p2 = u64_le_bytes(a.amount);
    let p3 = optional_key_bytes(a.delegate);
    let p4 = seq![state_byte(a.state)];
    let p5 = optional_u64_bytes(a.is_native);
    let p6 = u64_le_bytes(a.delegated_amount);
    let p7 = optional_key_bytes(a.close_authority);
    let x1 = a.mint + a.owner;
    let x2 = x1 + p2;
    let x3 = x2 + p3;
    let x4 = x3 + p4;
    let x5 = x4 + p5;
    let x6 = x5 + p6;
    assert(p5.len() == 12);
    assert(p3.len() == 36 && p7.len() == 36);
    assert(b == x6 + p7);
    assert(b.subrange(0, 165) =~= b);
    lemma_parts(b, x6, p7);
    lemma_parts(b, x5, p6);
    lemma_parts(b, x4, p5);
    lemma_parts(b, x3, p4);
    lemma_parts(b, x2, p3);
    lemma_parts(b, x1, p2);
    lemma_parts(b, a.mint, a.owner);
    lemma_u64_at(b, 64, a.amount);
    lemma_optional_key_at(b, 72, a.delegate);
    assert(b[108] == b.subrange(108, 109)[0]);
    lemma_optional_u64_at(b, 109, a.is_native);
    lemma_u64_at(b, 121, a.delegated_amount);
    lemma_optional_key_at(b, 129, a.close_authority);
}

/// A buffer that decodes, and holds zeros in the place of each absent
/// optional value, is what the decoded record encodes to.
pub proof fn lemma_token_account_encodes_what_was_decoded(b: Seq<u8>)
    requires
        token_account_layout(b) is Ok,
        optional_key_at(b, 72) == Some(None::<Seq<u8>>) ==> b.subrange(76, 108) == zeros(32),
        optional_u64_at(b, 109) == Some(None::<u64>) ==> b.subrange(113, 121) == zeros(8),
        optional_key_at(b, 129) == Some(None::<Seq<u8>>) ==> b.subrange(133, 165) == zeros(32),
    ensures
        token_account_bytes(token_account_layout(b)->Ok_0) == b,
{
    let a = token_account_layout(b)->Ok_0;
    lemma_u64_value_bytes(b, 64);
    lemma_optional_key_window(b, 72);
    assert(seq![state_byte(a.state)] =~= b.subrange(108, 109));
    lemma_optional_u64_window(b, 109);
    lemma_u64_value_bytes(b, 121);
    lemma_optional_key_window(b, 129);
    lemma_join(b, 0, 32, 64);
    lemma_join(b, 0, 64, 72);
    lemma_join(b, 0, 72, 108);
    lemma_join(b, 0, 108, 109);
    lemma_join(b, 0, 109, 121);
    lemma_join(b, 0, 121, 129);
    lemma_join(b, 0, 129, 165);
    assert(b.subrange(0, 165) =~= b);
}

} // verus!
