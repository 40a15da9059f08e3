//! What a transition reads of the accounts that the host hands in.

use crate::address::Address;
use crate::error::ClockPayError;
use solana_program::program_pack::Pack;
use vstd::bytes::*;
use vstd::prelude::*;

verus! {

/// A party to a transaction and whether it signed.
#[derive(Clone, Copy, Debug, PartialEq, Eq)]
pub struct Party {
    pub address: Address,
    pub is_signer: bool,
}

/// A balance holder of the ledger: which asset it holds, who controls it
/// and how much it holds.
#[derive(Clone, Copy, Debug, PartialEq, Eq)]
pub struct TokenAccount {
    pub address: Address,
    pub mint: Address,
    pub owner: Address,
    pub amount: u64,
}

/// An account as the host presents it to the program.
#[derive(Clone, Debug, PartialEq, Eq)]
pub struct AccountInfo {
    pub key: Address,
    /// The program that owns the account.
    pub owner: Address,
    pub is_signer: bool,
    pub lamports: u64,
    pub data: Vec<u8>,
}

/// Number of bytes of a balance holder's data.
pub const TOKEN_ACCOUNT_LEN: usize = 165;

/// Whether the four bytes from `at` on are the tag of an absent or of a
/// present optional field.
pub open spec fn option_tag(data: Seq<u8>, at: int) -> bool {
    (data[at] == 0 || data[at] == 1) && data[at + 1] == 0 && data[at + 2] == 0 && data[at + 3]
        == 0
}

/// Whether the bytes are the data of an initialized balance holder: 165
/// bytes, the state byte that of an initialized or a frozen account, and a
/// well-formed tag before each of the three optional fields.
pub open spec fn token_account_data(data: Seq<u8>) -> bool {
    &&& data.len() == 165
    &&& option_tag(data, 72)
    &&& (data[108] == 1 || data[108] == 2)
    &&& option_tag(data, 109)
    &&& option_tag(data, 129)
}

/// Calls `Account::unpack` of spl_token (the `Pack` trait's `unpack`) and
/// hands out the mint, the owner and the amount. The contract states the
/// layout that the crate's `unpack_from_slice` reads: the call succeeds
/// exactly on 165 bytes that hold valid option tags and the state of an
/// initialized account, the mint is the first 32 bytes, the owner the
/// next 32, the amount the little-endian number in the eight after them.
#[verifier::external_body]
fn spl_unpack_account(data: &[u8]) -> (fields: Option<(Address, Address, u64)>)
    ensures
        fields is Some <==> token_account_data(data@),
        fields matches Some((mint, owner, amount)) ==> {
            &&& mint@ == data@.subrange(0, 32)
            &&& owner@ == data@.subrange(32, 64)
            &&& amount == spec_u64_from_le_bytes(data@.subrange(64, 72))
        },
{
    match spl_token::state::Account::unpack(data) {
        Ok(account) => Some(
            (
                Address { bytes: account.mint.to_bytes() },
                Address { bytes: account.owner.to_bytes() },
                account.amount,
            ),
        ),
        Err(_) => None,
    }
}

impl TokenAccount {
    /// Whether `account` is what the data at `address` holds.
    pub open spec fn decodes(address: Address, data: Seq<u8>, account: TokenAccount) -> bool {
        &&& token_account_data(data)
        &&& account.address == address
        &&& account.mint@ == data.subrange(0, 32)
        &&& account.owner@ == data.subrange(32, 64)
        &&& account.amount == spec_u64_from_le_bytes(data.subrange(64, 72))
    }

    /// The balance holder that the data at `address` holds, where it
    /// holds one.
    pub open spec fn spec_unpack(address: Address, data: Seq<u8>) -> TokenAccount {
        choose|account: TokenAccount| Self::decodes(address, data, account)
    }

    /// Data holds one balance holder at most.
    pub proof fn lemma_decodes_one(address: Address, data: Seq<u8>, account: TokenAccount)
        requires
            Self::decodes(address, data, account),
        ensures
            Self::spec_unpack(address, data) == account,
    {
        let other = Self::spec_unpack(address, data);
        assert(other.mint.bytes =~= account.mint.bytes);
        assert(other.owner.bytes =~= account.owner.bytes);
    }

    /// Reads the balance holder at `address` from its data. Fails with
    /// `InvalidAccountData` where the data is not that of an initialized
    /// balance holder.
    pub fn unpack(address: Address, data: &[u8]) -> (read: Result<TokenAccount, ClockPayError>)
        ensures
            match read {
                Ok(account) => Self::decodes(address, data@, account) && account
                    == Self::spec_unpack(address, data@),
                Err(e) => e == ClockPayError::InvalidAccountData && !token_account_data(data@),
            },
    {
        match spl_unpack_account(data) {
            Some((mint, owner, amount)) => {
                let account = TokenAccount { address, mint, owner, amount };
                proof {
                    Self::lemma_decodes_one(address, data@, account);
                }
                Ok(account)
            },
            None => Err(ClockPayError::InvalidAccountData),
        }
    }
}

} // verus!
