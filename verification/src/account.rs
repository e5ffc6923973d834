//! Addresses and the accounts that an operation is handed.

use solana_program::pubkey::Pubkey;
use vstd::prelude::*;

verus! {

/// The identity of an account, a program or an asset type: 32 bytes.
#[derive(Debug, Clone, Copy, PartialEq, Eq)]
pub struct Address {
    pub bytes: [u8; 32],
}

impl View for Address {
    type V = Seq<u8>;

    open spec fn view(&self) -> Seq<u8> {
        self.bytes@
    }
}

impl Address {
    /// The address with the given bytes.
    pub fn new(bytes: [u8; 32]) -> (a: Address)
        ensures
            a.bytes == bytes,
            a@ == bytes@,
    {
        Address { bytes }
    }

    /// Whether two addresses are the same, byte for byte.
    pub fn same(&self, other: &Address) -> (r: bool)
        ensures
            r == (self@ == other@),
            r == (*self == *other),
    {
        let mut i: usize = 0;
        while i < 32
            invariant
                i <= 32,
                forall|j: int| 0 <= j < i ==> self.bytes[j] == other.bytes[j],
            decreases 32 - i,
        {
            if self.bytes[i] != other.bytes[i] {
                assert(self@[i as int] != other@[i as int]);
                return false;
            }
            i += 1;
        }
        assert(self.bytes =~= other.bytes);
        true
    }

    /// The address that `data` holds in the 32 bytes from `offset` on.
    pub fn read(data: &[u8], offset: usize) -> (a: Address)
        requires
            offset + 32 <= data@.len(),
        ensures
            a@ == data@.subrange(offset as int, offset + 32),
    {
        let mut bytes: [u8; 32] = [0u8; 32];
        let len: usize = data.len();
        let mut i: usize = 0;
        while i < 32
            invariant
                i <= 32,
                offset + 32 <= data@.len() == len,
                forall|j: int| 0 <= j < i ==> bytes[j] == data@[offset + j],
            decreases 32 - i,
        {
            bytes[i] = data[offset + i];
            i += 1;
        }
        proof {
            assert(bytes@ =~= data@.subrange(offset as int, offset + 32));
        }
        Address { bytes }
    }

    /// Appends the 32 bytes of the address to `out`.
    pub fn write(&self, out: &mut Vec<u8>)
        ensures
            final(out)@ == old(out)@ + self@,
    {
        let mut i: usize = 0;
        while i < 32
            invariant
                i <= 32,
                out@ == old(out)@ + self@.subrange(0, i as int),
            decreases 32 - i,
        {
            out.push(self.bytes[i]);
            proof {
                assert(self@.subrange(0, i + 1) =~= self@.subrange(0, i as int).push(
                    self@[i as int],
                ));
                assert(out@ =~= old(out)@ + self@.subrange(0, i + 1));
            }
            i += 1;
        }
        proof {
            assert(self@.subrange(0, 32) =~= self@);
        }
    }
}

/// Two addresses with the same bytes are the same address.
pub proof fn lemma_address_by_view(a: Address, b: Address)
    ensures
        (a@ == b@) == (a == b),
{
    if a@ == b@ {
        assert(forall|i: int| 0 <= i < 32 ==> a.bytes[i] == a@[i]);
        assert(forall|i: int| 0 <= i < 32 ==> b.bytes[i] == b@[i]);
        assert(a.bytes =~= b.bytes);
    }
}

/// An account as an operation sees it.
#[derive(Debug, Clone, PartialEq, Eq)]
pub struct Account {
    /// The account's own address.
    pub key: Address,
    /// The program that owns the account.
    pub owner: Address,
    /// Whether the account signed the transaction.
    pub is_signer: bool,
    /// Whether the transaction may write to the account.
    pub is_writable: bool,
    /// What the account stores.
    pub data: Vec<u8>,
}

impl Account {
    /// The account can be written and belongs to `owner`.
    pub open spec fn writable_and_owned_by(&self, owner: Address) -> bool {
        self.is_writable && self.owner@ == owner@
    }

    /// Whether the account can be written and belongs to `owner`.
    pub fn is_writable_and_owned_by(&self, owner: &Address) -> (r: bool)
        ensures
            r == self.writable_and_owned_by(*owner),
    {
        self.is_writable && self.owner.same(owner)
    }

    /// The account stores a token account of the token ledger that holds
    /// the asset type `mint`.
    pub open spec fn holds_mint(&self, mint: Address) -> bool {
        stored_mint(self.data@) == Some(mint@)
    }

    /// Whether the account stores a token account of the token ledger that
    /// holds the asset type `mint`.
    pub fn is_token_account_of(&self, mint: &Address) -> (r: bool)
        ensures
            r == self.holds_mint(*mint),
    {
        match token_account_mint(self.data.as_slice()) {
            Some(found) => found.same(mint),
            None => false,
        }
    }
}

/// Every byte of `key` is zero.
pub open spec fn all_zero(key: Seq<u8>) -> bool {
    forall|i: int| 0 <= i < key.len() ==> key[i] == 0
}

/// The address of the token ledger program.
pub open spec fn token_program_key() -> Seq<u8> {
    seq![
        6u8, 221, 246, 225, 215, 101, 161, 147, 217, 203, 225, 70, 206, 235, 121, 172, 28, 180,
        133, 237, 95, 91, 55, 145, 58, 140, 245, 133, 126, 255, 0, 169,
    ]
}

/// `key` is the address of the token ledger program.
pub open spec fn names_token_program(key: Seq<u8>) -> bool {
    key == token_program_key()
}

/// The asset type that a token account with the stored bytes `data` holds, if
/// `data` is a token account of the token ledger.
pub uninterp spec fn stored_mint(data: Seq<u8>) -> Option<Seq<u8>>;

/// `spl_token::check_id`: whether `key` is the address that the token ledger
/// program declares as its own, `TokenkegQfeZyiNwAJbNbGKPFXCWuBvf9Ss623VQ5DA`
/// in base 58, which are the 32 bytes of `token_program_key`.
#[verifier::external_body]
pub(crate) fn is_token_program(key: &Address) -> (r: bool)
    ensures
        r == names_token_program(key@),
{
    spl_token::check_id(&Pubkey::new_from_array(key.bytes))
}

/// `solana_program::system_program::check_id`: whether `key` is the address of
/// the host's system program, which is the address of 32 zero bytes.
#[verifier::external_body]
pub(crate) fn is_system_program(key: &Address) -> (r: bool)
    ensures
        r == all_zero(key@),
{
    solana_program::system_program::check_id(&Pubkey::new_from_array(key.bytes))
}

/// `Pack::unpack` of `spl_token::state::Account`: reads `data` as a token
/// account of the token ledger and hands out its `mint` field, or nothing
/// where the ledger's own reader refuses the bytes. The answer depends on
/// `data` alone.
#[verifier::external_body]
pub(crate) fn token_account_mint(data: &[u8]) -> (r: Option<Address>)
    ensures
        match r {
            Some(a) => stored_mint(data@) == Some(a@),
            None => stored_mint(data@) is None,
        },
{
    match <spl_token::state::Account as solana_program::program_pack::Pack>::unpack(data) {
        Ok(account) => Some(Address { bytes: account.mint.to_bytes() }),
        Err(_) => None,
    }
}

} // verus!
