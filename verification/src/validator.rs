//! The checks on the accounts handed to an operation. They look at flags,
//! owners and addresses only, never at what the pool record holds, and they
//! come before anything else an operation does.

use crate::account::{
    all_zero, is_system_program, is_token_program, names_token_program, Account, Address,
};
use crate::error::LiquidityPoolError;
use vstd::prelude::*;

verus! {

/// The pool record's account can be written and belongs to this program.
pub open spec fn pool_account_ok(program_id: Address, account: Account) -> bool {
    account.writable_and_owned_by(program_id)
}

/// A token-side account can be written and belongs to the program that the
/// operation was handed as the token ledger.
pub open spec fn token_side_ok(account: Account, token_program: Account) -> bool {
    account.writable_and_owned_by(token_program.key)
}

/// The checks of Initialize that come before the two asset types are
/// compared: eight accounts; the record's account writable and owned by this
/// program or by the host's system program; the authority not writable; both
/// asset types owned by the token ledger handed in.
pub open spec fn initialize_head_ok(program_id: Address, accounts: Seq<Account>) -> bool {
    &&& accounts.len() >= 8
    &&& accounts[0].is_writable
    &&& (accounts[0].owner@ == program_id@ || all_zero(accounts[0].owner@))
    &&& !accounts[1].is_writable
    &&& accounts[2].owner@ == accounts[7].key@
    &&& accounts[3].owner@ == accounts[7].key@
}

/// The checks of Initialize that come after: both vaults writable and owned
/// by the token ledger handed in, which is the real one.
pub open spec fn initialize_tail_ok(accounts: Seq<Account>) -> bool {
    &&& token_side_ok(accounts[4], accounts[7])
    &&& token_side_ok(accounts[5], accounts[7])
    &&& names_token_program(accounts[7].key@)
}

/// What the account checks of Initialize come to. The accounts are, in
/// order: the pool record, the authority, asset type A, asset type B,
/// vault A, vault B, the share type, the token ledger. A pool of one asset
/// type with itself is `InvalidAmount`; every other fault is
/// `InvalidAccount`.
pub open spec fn initialize_check(program_id: Address, accounts: Seq<Account>) -> Result<
    (),
    LiquidityPoolError,
> {
    if !initialize_head_ok(program_id, accounts) {
        Err(LiquidityPoolError::InvalidAccount)
    } else if accounts[2].key@ == accounts[3].key@ {
        Err(LiquidityPoolError::InvalidAmount)
    } else if !initialize_tail_ok(accounts) {
        Err(LiquidityPoolError::InvalidAccount)
    } else {
        Ok(())
    }
}

/// The flags and owners that AddLiquidity asks for: nine accounts; the
/// record's account writable and owned by this program; the user's two token
/// accounts, the two vaults, the share type and the user's share account
/// writable and owned by the program handed in as the token ledger.
pub open spec fn add_liquidity_accounts_ok(program_id: Address, accounts: Seq<Account>) -> bool {
    &&& accounts.len() >= 9
    &&& pool_account_ok(program_id, accounts[0])
    &&& token_side_ok(accounts[1], accounts[7])
    &&& token_side_ok(accounts[2], accounts[7])
    &&& token_side_ok(accounts[3], accounts[7])
    &&& token_side_ok(accounts[4], accounts[7])
    &&& token_side_ok(accounts[5], accounts[7])
    &&& token_side_ok(accounts[6], accounts[7])
}

/// The flags and owners that RemoveLiquidity asks for: nine accounts; the
/// record's account writable and owned by this program; the user's share
/// account, the two vaults, the user's two token accounts and the share type
/// writable and owned by the program handed in as the token ledger.
pub open spec fn remove_liquidity_accounts_ok(program_id: Address, accounts: Seq<Account>) -> bool {
    &&& accounts.len() >= 9
    &&& pool_account_ok(program_id, accounts[0])
    &&& token_side_ok(accounts[1], accounts[8])
    &&& token_side_ok(accounts[2], accounts[8])
    &&& token_side_ok(accounts[3], accounts[8])
    &&& token_side_ok(accounts[4], accounts[8])
    &&& token_side_ok(accounts[5], accounts[8])
    &&& token_side_ok(accounts[6], accounts[8])
}

/// The flags and owners that Swap asks for: seven accounts; the record's
/// account writable and owned by this program; the user's input and output
/// accounts and the two vaults writable and owned by the program handed in as
/// the token ledger.
pub open spec fn swap_accounts_ok(program_id: Address, accounts: Seq<Account>) -> bool {
    &&& accounts.len() >= 7
    &&& pool_account_ok(program_id, accounts[0])
    &&& token_side_ok(accounts[1], accounts[5])
    &&& token_side_ok(accounts[2], accounts[5])
    &&& token_side_ok(accounts[3], accounts[5])
    &&& token_side_ok(accounts[4], accounts[5])
}

/// What the checks of an operation on an existing pool come to, in their
/// order: a fault in the flags or owners is `InvalidAccount`; with those in
/// order, a user who did not sign is `Unauthorized`; with the signature too,
/// a program handed in as the token ledger that is not the token ledger is
/// `InvalidAccount`.
pub open spec fn signed_check(accounts_ok: bool, user_signed: bool, ledger_known: bool) -> Result<
    (),
    LiquidityPoolError,
> {
    if !accounts_ok {
        Err(LiquidityPoolError::InvalidAccount)
    } else if !user_signed {
        Err(LiquidityPoolError::Unauthorized)
    } else if !ledger_known {
        Err(LiquidityPoolError::InvalidAccount)
    } else {
        Ok(())
    }
}

/// What the account checks of AddLiquidity come to. The accounts are, in
/// order: the pool record, the user's account of asset A, the user's account
/// of asset B, vault A, vault B, the share type, the user's share account,
/// the token ledger, the user.
pub open spec fn add_liquidity_check(program_id: Address, accounts: Seq<Account>) -> Result<
    (),
    LiquidityPoolError,
> {
    signed_check(
        add_liquidity_accounts_ok(program_id, accounts),
        accounts[8].is_signer,
        names_token_program(accounts[7].key@),
    )
}

/// What the account checks of RemoveLiquidity come to. The accounts are, in
/// order: the pool record, the user's share account, vault A, vault B, the
/// user's account of asset A, the user's account of asset B, the share type,
/// the user, the token ledger.
pub open spec fn remove_liquidity_check(program_id: Address, accounts: Seq<Account>) -> Result<
    (),
    LiquidityPoolError,
> {
    signed_check(
        remove_liquidity_accounts_ok(program_id, accounts),
        accounts[7].is_signer,
        names_token_program(accounts[8].key@),
    )
}

/// What the account checks of Swap come to. The accounts are, in order: the
/// pool record, the user's input account, the user's output account, the
/// input vault, the output vault, the token ledger, the user.
pub open spec fn swap_check(program_id: Address, accounts: Seq<Account>) -> Result<
    (),
    LiquidityPoolError,
> {
    signed_check(
        swap_accounts_ok(program_id, accounts),
        accounts[6].is_signer,
        names_token_program(accounts[5].key@),
    )
}

/// Whether each of `accounts[first..=last]` can be written and belongs to
/// the program whose address `token_program` has.
fn token_side_range(accounts: &[Account], first: usize, last: usize, token_program: &Account) -> (r:
    bool)
    requires
        first <= last < accounts@.len(),
    ensures
        r == (forall|i: int| first <= i <= last ==> token_side_ok(accounts@[i], *token_program)),
{
    let mut i: usize = first;
    while i <= last
        invariant
            first <= i <= last + 1,
            last < accounts@.len(),
            forall|j: int| first <= j < i ==> token_side_ok(accounts@[j], *token_program),
        decreases last + 1 - i,
    {
        if !accounts[i].is_writable_and_owned_by(&token_program.key) {
            return false;
        }
        i += 1;
    }
    true
}

/// Checks the accounts of Initialize.
pub fn check_initialize_accounts(program_id: &Address, accounts: &[Account]) -> (res: Result<
    (),
    LiquidityPoolError,
>)
    ensures
        res == initialize_check(*program_id, accounts@),
{
    if accounts.len() < 8 {
        return Err(LiquidityPoolError::InvalidAccount);
    }
    let pool_state = &accounts[0];
    let authority = &accounts[1];
    let token_a_mint = &accounts[2];
    let token_b_mint = &accounts[3];
    let token_program = &accounts[7];

    if !pool_state.is_writable {
        return Err(LiquidityPoolError::InvalidAccount);
    }
    if !pool_state.owner.same(program_id) && !is_system_program(&pool_state.owner) {
        return Err(LiquidityPoolError::InvalidAccount);
    }
    if authority.is_writable {
        return Err(LiquidityPoolError::InvalidAccount);
    }
    if !token_a_mint.owner.same(&token_program.key) || !token_b_mint.owner.same(
        &token_program.key,
    ) {
        return Err(LiquidityPoolError::InvalidAccount);
    }
    if token_a_mint.key.same(&token_b_mint.key) {
        return Err(LiquidityPoolError::InvalidAmount);
    }
    if !token_side_range(accounts, 4, 5, token_program) {
        return Err(LiquidityPoolError::InvalidAccount);
    }
    if !is_token_program(&token_program.key) {
        return Err(LiquidityPoolError::InvalidAccount);
    }
    Ok(())
}

/// Checks the accounts of AddLiquidity: flags and owners, then the user's
/// signature, then the token ledger's identity.
pub fn check_add_liquidity_accounts(program_id: &Address, accounts: &[Account]) -> (res: Result<
    (),
    LiquidityPoolError,
>)
    ensures
        res == add_liquidity_check(*program_id, accounts@),
{
    if accounts.len() < 9 {
        return Err(LiquidityPoolError::InvalidAccount);
    }
    let token_program = &accounts[7];
    if !accounts[0].is_writable_and_owned_by(program_id) {
        return Err(LiquidityPoolError::InvalidAccount);
    }
    if !token_side_range(accounts, 1, 6, token_program) {
        return Err(LiquidityPoolError::InvalidAccount);
    }
    if !accounts[8].is_signer {
        return Err(LiquidityPoolError::Unauthorized);
    }
    if !is_token_program(&token_program.key) {
        return Err(LiquidityPoolError::InvalidAccount);
    }
    Ok(())
}

/// Checks the accounts of RemoveLiquidity: flags and owners, then the user's
/// signature, then the token ledger's identity.
pub fn check_remove_liquidity_accounts(program_id: &Address, accounts: &[Account]) -> (res: Result<
    (),
    LiquidityPoolError,
>)
    ensures
        res == remove_liquidity_check(*program_id, accounts@),
{
    if accounts.len() < 9 {
        return Err(LiquidityPoolError::InvalidAccount);
    }
    let token_program = &accounts[8];
    if !accounts[0].is_writable_and_owned_by(program_id) {
        return Err(LiquidityPoolError::InvalidAccount);
    }
    if !token_side_range(accounts, 1, 6, token_program) {
        return Err(LiquidityPoolError::InvalidAccount);
    }
    if !accounts[7].is_signer {
        return Err(LiquidityPoolError::Unauthorized);
    }
    if !is_token_program(&token_program.key) {
        return Err(LiquidityPoolError::InvalidAccount);
    }
    Ok(())
}

/// Checks the accounts of Swap: flags and owners, then the user's signature,
/// then the token ledger's identity.
pub fn check_swap_accounts(program_id: &Address, accounts: &[Account]) -> (res: Result<
    (),
    LiquidityPoolError,
>)
    ensures
        res == swap_check(*program_id, accounts@),
{
    if accounts.len() < 7 {
        return Err(LiquidityPoolError::InvalidAccount);
    }
    let token_program = &accounts[5];
    if !accounts[0].is_writable_and_owned_by(program_id) {
        return Err(LiquidityPoolError::InvalidAccount);
    }
    if !token_side_range(accounts, 1, 4, token_program) {
        return Err(LiquidityPoolError::InvalidAccount);
    }
    if !accounts[6].is_signer {
        return Err(LiquidityPoolError::Unauthorized);
    }
    if !is_token_program(&token_program.key) {
        return Err(LiquidityPoolError::InvalidAccount);
    }
    Ok(())
}

} // verus!
