//! The four operations: which accounts each one needs, when it is admitted,
//! what it asks of the token ledger and what it leaves in the pool record.
//!
//! An operation never talks to the ledger itself. It hands back the requests
//! in the order in which they are to be made, and the record to store after
//! the last of them has succeeded; a refused operation hands back neither.

use crate::account::{Account, Address};
use crate::error::LiquidityPoolError;
use crate::instruction::{PoolInstruction, PoolUpdate, TokenRequest};
use crate::math::{
    after_fee, compute_swap_output, deposit_shares, lemma_redeemed_bounds,
    lemma_swap_keeps_product, redeem_amount, redeemed, shares_for_deposit, swap_output,
};
use crate::state::{stored_pool, LiquidityPool};
use crate::validator::{
    add_liquidity_accounts_ok, add_liquidity_check, check_add_liquidity_accounts,
    check_initialize_accounts, check_remove_liquidity_accounts, check_swap_accounts,
    initialize_check, remove_liquidity_accounts_ok, remove_liquidity_check, swap_accounts_ok,
    swap_check,
};
use vstd::prelude::*;

verus! {

/// What an operation comes to, in mathematical terms: the requests and the
/// new record, or the reason for the refusal.
pub type Outcome = Result<(Seq<TokenRequest>, LiquidityPool), LiquidityPoolError>;

/// The outcome that a result stands for.
pub open spec fn outcome(res: Result<PoolUpdate, LiquidityPoolError>) -> Outcome {
    match res {
        Ok(update) => Ok((update.requests@, update.pool)),
        Err(e) => Err(e),
    }
}

// ---------------------------------------------------------------------------
// Initialize
// ---------------------------------------------------------------------------
/// The record of a new pool: the identities as the accounts give them,
/// nothing in the reserves and no shares.
pub open spec fn initial_pool(accounts: Seq<Account>) -> LiquidityPool {
    LiquidityPool {
        authority: accounts[1].key,
        token_a_mint: accounts[2].key,
        token_b_mint: accounts[3].key,
        token_a_vault: accounts[4].key,
        token_b_vault: accounts[5].key,
        liquidity_mint: accounts[6].key,
        liquidity_supply: 0,
        token_a_reserve: 0,
        token_b_reserve: 0,
    }
}

/// What Initialize comes to. The accounts are, in order: the pool record,
/// the authority, asset type A, asset type B, vault A, vault B, the share
/// type, the token ledger.
pub open spec fn initialize_result(program_id: Address, accounts: Seq<Account>) -> Result<
    LiquidityPool,
    LiquidityPoolError,
> {
    match initialize_check(program_id, accounts) {
        Err(e) => Err(e),
        Ok(_) => if accounts[0].data@.len() != 0 {
            Err(LiquidityPoolError::AlreadyInitialized)
        } else {
            Ok(initial_pool(accounts))
        },
    }
}

/// Creates the pool record.
///
/// The accounts are checked first, in the order of [`initialize_check`];
/// then storage that already holds anything is `AlreadyInitialized`. The new
/// record has empty reserves and no shares, and satisfies the pool's
/// invariant.
pub fn initialize_pool(program_id: &Address, accounts: &[Account]) -> (res: Result<
    LiquidityPool,
    LiquidityPoolError,
>)
    ensures
        res == initialize_result(*program_id, accounts@),
        accounts@.len() >= 8 && accounts@[0].data@.len() != 0 ==> res is Err,
        initialize_check(*program_id, accounts@) is Ok && accounts@[0].data@.len() != 0 ==> res
            == Err::<LiquidityPool, LiquidityPoolError>(LiquidityPoolError::AlreadyInitialized),
        res is Ok ==> res->Ok_0.wf(),
{
    match check_initialize_accounts(program_id, accounts) {
        Ok(_) => {},
        Err(e) => {
            return Err(e);
        },
    }
    let pool_state = &accounts[0];
    let authority = &accounts[1];
    let token_a_mint = &accounts[2];
    let token_b_mint = &accounts[3];
    let token_a_vault = &accounts[4];
    let token_b_vault = &accounts[5];
    let liquidity_mint = &accounts[6];
    if pool_state.data.len() != 0 {
        return Err(LiquidityPoolError::AlreadyInitialized);
    }
    Ok(
        LiquidityPool {
            authority: authority.key,
            token_a_mint: token_a_mint.key,
            token_b_mint: token_b_mint.key,
            token_a_vault: token_a_vault.key,
            token_b_vault: token_b_vault.key,
            liquidity_mint: liquidity_mint.key,
            liquidity_supply: 0,
            token_a_reserve: 0,
            token_b_reserve: 0,
        },
    )
}

// ---------------------------------------------------------------------------
// AddLiquidity
// ---------------------------------------------------------------------------
/// The vaults handed in are the pool's, and the user's token accounts hold
/// the pool's two asset types.
pub open spec fn deposit_matches_pool(pool: LiquidityPool, accounts: Seq<Account>) -> bool {
    &&& pool.token_a_vault@ == accounts[3].key@
    &&& pool.token_b_vault@ == accounts[4].key@
    &&& accounts[1].holds_mint(pool.token_a_mint)
    &&& accounts[2].holds_mint(pool.token_b_mint)
}

/// The requests of a deposit: asset A from the user to vault A, asset B from
/// the user to vault B, both on the user's word; then the shares to the user,
/// on the pool authority's word.
pub open spec fn deposit_requests(
    pool: LiquidityPool,
    accounts: Seq<Account>,
    amount_a: u64,
    amount_b: u64,
    shares: u64,
) -> Seq<TokenRequest> {
    seq![
        TokenRequest::Transfer {
            source: accounts[1].key,
            destination: accounts[3].key,
            authority: accounts[8].key,
            amount: amount_a,
        },
        TokenRequest::Transfer {
            source: accounts[2].key,
            destination: accounts[4].key,
            authority: accounts[8].key,
            amount: amount_b,
        },
        TokenRequest::MintTo {
            mint: accounts[5].key,
            destination: accounts[6].key,
            authority: pool.authority,
            amount: shares,
        },
    ]
}

/// What a deposit into `pool` comes to once the accounts are accepted.
pub open spec fn deposit_result(
    pool: LiquidityPool,
    accounts: Seq<Account>,
    amount_a: u64,
    amount_b: u64,
) -> Outcome {
    let shares = deposit_shares(
        pool.liquidity_supply,
        pool.token_a_reserve,
        pool.token_b_reserve,
        amount_a,
        amount_b,
    );
    if amount_a == 0 || amount_b == 0 {
        Err(LiquidityPoolError::InvalidAmount)
    } else if pool.liquidity_supply != 0 && (pool.token_a_reserve == 0 || pool.token_b_reserve
        == 0) {
        Err(LiquidityPoolError::ArithmeticOverflow)
    } else if shares > u64::MAX {
        Err(LiquidityPoolError::ArithmeticOverflow)
    } else if shares == 0 {
        Err(LiquidityPoolError::InvalidAmount)
    } else if !pool.deposit_fits(amount_a, amount_b, shares as u64) {
        Err(LiquidityPoolError::ArithmeticOverflow)
    } else {
        Ok(
            (
                deposit_requests(pool, accounts, amount_a, amount_b, shares as u64),
                pool.after_deposit(amount_a, amount_b, shares as u64),
            ),
        )
    }
}

/// What AddLiquidity comes to. The accounts are, in order: the pool record,
/// the user's account of asset A, the user's account of asset B, vault A,
/// vault B, the share type, the user's share account, the token ledger, the
/// user.
pub open spec fn add_liquidity_result(
    program_id: Address,
    accounts: Seq<Account>,
    amount_a: u64,
    amount_b: u64,
) -> Outcome {
    match add_liquidity_check(program_id, accounts) {
        Err(e) => Err(e),
        Ok(_) => match stored_pool(accounts[0].data@) {
            None => Err(LiquidityPoolError::NotInitialized),
            Some(pool) => if !deposit_matches_pool(pool, accounts) {
                Err(LiquidityPoolError::InvalidAccount)
            } else {
                deposit_result(pool, accounts, amount_a, amount_b)
            },
        },
    }
}

/// Plans a deposit into `pool`, with the accounts of AddLiquidity already
/// accepted: the shares, the three requests, and the record with both
/// amounts and the shares added.
///
/// The result is exactly [`deposit_result`]. An amount of zero, and a deposit
/// that earns no share, are `InvalidAmount`; a reserve or a supply that
/// would leave 64 bits is `ArithmeticOverflow`.
pub fn plan_deposit(pool: &LiquidityPool, accounts: &[Account], amount_a: u64, amount_b: u64) -> (res:
    Result<PoolUpdate, LiquidityPoolError>)
    requires
        accounts@.len() >= 9,
    ensures
        outcome(res) == deposit_result(*pool, accounts@, amount_a, amount_b),
        amount_a == 0 || amount_b == 0 ==> res is Err,
        res is Ok && pool.wf() ==> res->Ok_0.pool.wf(),
{
    let user_token_a = &accounts[1];
    let user_token_b = &accounts[2];
    let token_a_vault = &accounts[3];
    let token_b_vault = &accounts[4];
    let liquidity_mint = &accounts[5];
    let user_liquidity = &accounts[6];
    let user = &accounts[8];
    if amount_a == 0 || amount_b == 0 {
        return Err(LiquidityPoolError::InvalidAmount);
    }
    let shares: u64 = match shares_for_deposit(
        pool.liquidity_supply,
        pool.token_a_reserve,
        pool.token_b_reserve,
        amount_a,
        amount_b,
    ) {
        Ok(shares) => shares,
        Err(e) => {
            return Err(e);
        },
    };
    if shares == 0 {
        return Err(LiquidityPoolError::InvalidAmount);
    }
    let mut requests: Vec<TokenRequest> = Vec::new();
    requests.push(
        TokenRequest::Transfer {
            source: user_token_a.key,
            destination: token_a_vault.key,
            authority: user.key,
            amount: amount_a,
        },
    );
    requests.push(
        TokenRequest::Transfer {
            source: user_token_b.key,
            destination: token_b_vault.key,
            authority: user.key,
            amount: amount_b,
        },
    );
    requests.push(
        TokenRequest::MintTo {
            mint: liquidity_mint.key,
            destination: user_liquidity.key,
            authority: pool.authority,
            amount: shares,
        },
    );
    proof {
        assert(requests@ =~= deposit_requests(*pool, accounts@, amount_a, amount_b, shares));
    }
    match pool.deposit(amount_a, amount_b, shares) {
        Ok(updated) => Ok(PoolUpdate { requests, pool: updated }),
        Err(e) => Err(e),
    }
}

/// Deposits `amount_a` and `amount_b` and mints shares for them.
///
/// The result is exactly [`add_liquidity_result`]. In particular: an amount
/// of zero is always refused, so that no request is made; a user who did not
/// sign is refused as `Unauthorized` once flags and owners are in order;
/// the shares of an admitted deposit are those of [`deposit_shares`]; and a
/// pool that satisfied its invariant still does.
pub fn add_liquidity(
    program_id: &Address,
    accounts: &[Account],
    amount_a: u64,
    amount_b: u64,
) -> (res: Result<PoolUpdate, LiquidityPoolError>)
    ensures
        outcome(res) == add_liquidity_result(*program_id, accounts@, amount_a, amount_b),
        amount_a == 0 || amount_b == 0 ==> res is Err,
        accounts@.len() >= 9 && !accounts@[8].is_signer ==> res is Err,
        add_liquidity_accounts_ok(*program_id, accounts@) && !accounts@[8].is_signer ==> res
            is Err && res->Err_0 == LiquidityPoolError::Unauthorized,
        res is Ok && stored_pool(accounts@[0].data@)->Some_0.wf() ==> res->Ok_0.pool.wf(),
{
    match check_add_liquidity_accounts(program_id, accounts) {
        Ok(_) => {},
        Err(e) => {
            return Err(e);
        },
    }
    let pool_state = &accounts[0];
    let user_token_a = &accounts[1];
    let user_token_b = &accounts[2];
    let token_a_vault = &accounts[3];
    let token_b_vault = &accounts[4];

    let pool: LiquidityPool = match LiquidityPool::unpack(pool_state.data.as_slice()) {
        Some(pool) => pool,
        None => {
            return Err(LiquidityPoolError::NotInitialized);
        },
    };
    if !pool.token_a_vault.same(&token_a_vault.key) || !pool.token_b_vault.same(
        &token_b_vault.key,
    ) {
        return Err(LiquidityPoolError::InvalidAccount);
    }
    if !user_token_a.is_token_account_of(&pool.token_a_mint) || !user_token_b.is_token_account_of(
        &pool.token_b_mint,
    ) {
        return Err(LiquidityPoolError::InvalidAccount);
    }
    plan_deposit(&pool, accounts, amount_a, amount_b)
}

// ---------------------------------------------------------------------------
// RemoveLiquidity
// ---------------------------------------------------------------------------
/// The requests of a redemption: the shares are destroyed on the user's
/// word; then asset A goes from vault A to the user and asset B from vault B
/// to the user, both on the pool authority's word.
pub open spec fn redemption_requests(
    pool: LiquidityPool,
    accounts: Seq<Account>,
    liquidity_amount: u64,
    amount_a: u64,
    amount_b: u64,
) -> Seq<TokenRequest> {
    seq![
        TokenRequest::Burn {
            source: accounts[1].key,
            mint: accounts[6].key,
            authority: accounts[7].key,
            amount: liquidity_amount,
        },
        TokenRequest::Transfer {
            source: accounts[2].key,
            destination: accounts[4].key,
            authority: pool.authority,
            amount: amount_a,
        },
        TokenRequest::Transfer {
            source: accounts[3].key,
            destination: accounts[5].key,
            authority: pool.authority,
            amount: amount_b,
        },
    ]
}

/// What a redemption from `pool` comes to once the accounts are accepted.
pub open spec fn redemption_result(
    pool: LiquidityPool,
    accounts: Seq<Account>,
    liquidity_amount: u64,
) -> Outcome {
    let amount_a = redeemed(liquidity_amount, pool.token_a_reserve, pool.liquidity_supply);
    let amount_b = redeemed(liquidity_amount, pool.token_b_reserve, pool.liquidity_supply);
    if liquidity_amount == 0 || liquidity_amount > pool.liquidity_supply {
        Err(LiquidityPoolError::InvalidAmount)
    } else if amount_a == 0 || amount_b == 0 {
        Err(LiquidityPoolError::InvalidAmount)
    } else {
        Ok(
            (
                redemption_requests(
                    pool,
                    accounts,
                    liquidity_amount,
                    amount_a as u64,
                    amount_b as u64,
                ),
                pool.after_withdrawal(liquidity_amount, amount_a as u64, amount_b as u64),
            ),
        )
    }
}

/// What RemoveLiquidity comes to. The accounts are, in order: the pool
/// record, the user's share account, vault A, vault B, the user's account of
/// asset A, the user's account of asset B, the share type, the user, the
/// token ledger.
pub open spec fn remove_liquidity_result(
    program_id: Address,
    accounts: Seq<Account>,
    liquidity_amount: u64,
) -> Outcome {
    match remove_liquidity_check(program_id, accounts) {
        Err(e) => Err(e),
        Ok(_) => match stored_pool(accounts[0].data@) {
            None => Err(LiquidityPoolError::NotInitialized),
            Some(pool) => redemption_result(pool, accounts, liquidity_amount),
        },
    }
}

/// Plans a redemption from `pool`, with the accounts of RemoveLiquidity
/// already accepted: the two amounts, the three requests, and the record
/// with the amounts and the shares taken off.
///
/// The result is exactly [`redemption_result`]. No shares, more shares than
/// are outstanding, and a redemption that pays nothing of either asset are
/// `InvalidAmount`. Redeeming every outstanding share leaves both reserves
/// and the supply at zero.
pub fn plan_redemption(pool: &LiquidityPool, accounts: &[Account], liquidity_amount: u64) -> (res:
    Result<PoolUpdate, LiquidityPoolError>)
    requires
        accounts@.len() >= 9,
    ensures
        outcome(res) == redemption_result(*pool, accounts@, liquidity_amount),
        liquidity_amount == 0 ==> res is Err,
        res is Ok && liquidity_amount == pool.liquidity_supply ==> res->Ok_0.pool.liquidity_supply
            == 0 && res->Ok_0.pool.token_a_reserve == 0 && res->Ok_0.pool.token_b_reserve == 0,
        res is Ok && pool.wf() ==> res->Ok_0.pool.wf(),
{
    let user_liquidity = &accounts[1];
    let token_a_vault = &accounts[2];
    let token_b_vault = &accounts[3];
    let user_token_a = &accounts[4];
    let user_token_b = &accounts[5];
    let liquidity_mint = &accounts[6];
    let user = &accounts[7];
    if liquidity_amount == 0 || liquidity_amount > pool.liquidity_supply {
        return Err(LiquidityPoolError::InvalidAmount);
    }
    let amount_a: u64 = redeem_amount(liquidity_amount, pool.token_a_reserve, pool.liquidity_supply);
    let amount_b: u64 = redeem_amount(liquidity_amount, pool.token_b_reserve, pool.liquidity_supply);
    if amount_a == 0 || amount_b == 0 {
        return Err(LiquidityPoolError::InvalidAmount);
    }
    let mut requests: Vec<TokenRequest> = Vec::new();
    requests.push(
        TokenRequest::Burn {
            source: user_liquidity.key,
            mint: liquidity_mint.key,
            authority: user.key,
            amount: liquidity_amount,
        },
    );
    requests.push(
        TokenRequest::Transfer {
            source: token_a_vault.key,
            destination: user_token_a.key,
            authority: pool.authority,
            amount: amount_a,
        },
    );
    requests.push(
        TokenRequest::Transfer {
            source: token_b_vault.key,
            destination: user_token_b.key,
            authority: pool.authority,
            amount: amount_b,
        },
    );
    proof {
        assert(requests@ =~= redemption_requests(
            *pool,
            accounts@,
            liquidity_amount,
            amount_a,
            amount_b,
        ));
        lemma_redeemed_bounds(liquidity_amount, pool.token_a_reserve, pool.liquidity_supply);
        lemma_redeemed_bounds(liquidity_amount, pool.token_b_reserve, pool.liquidity_supply);
    }
    match pool.withdraw(liquidity_amount, amount_a, amount_b) {
        Ok(updated) => Ok(PoolUpdate { requests, pool: updated }),
        Err(e) => Err(e),
    }
}

/// Redeems `liquidity_amount` shares for their part of both reserves.
///
/// The result is exactly [`remove_liquidity_result`]. In particular: an
/// amount of zero is always refused; a user who did not sign is refused as
/// `Unauthorized` once flags and owners are in order; redeeming every
/// outstanding share leaves both reserves and the supply at zero; and a pool
/// that satisfied its invariant still does.
pub fn remove_liquidity(program_id: &Address, accounts: &[Account], liquidity_amount: u64) -> (res:
    Result<PoolUpdate, LiquidityPoolError>)
    ensures
        outcome(res) == remove_liquidity_result(*program_id, accounts@, liquidity_amount),
        liquidity_amount == 0 ==> res is Err,
        accounts@.len() >= 9 && !accounts@[7].is_signer ==> res is Err,
        remove_liquidity_accounts_ok(*program_id, accounts@) && !accounts@[7].is_signer ==> res
            is Err && res->Err_0 == LiquidityPoolError::Unauthorized,
        res is Ok && liquidity_amount == stored_pool(accounts@[0].data@)->Some_0.liquidity_supply
            ==> res->Ok_0.pool.liquidity_supply == 0 && res->Ok_0.pool.token_a_reserve == 0
            && res->Ok_0.pool.token_b_reserve == 0,
        res is Ok && stored_pool(accounts@[0].data@)->Some_0.wf() ==> res->Ok_0.pool.wf(),
{
    match check_remove_liquidity_accounts(program_id, accounts) {
        Ok(_) => {},
        Err(e) => {
            return Err(e);
        },
    }
    let pool_state = &accounts[0];

    let pool: LiquidityPool = match LiquidityPool::unpack(pool_state.data.as_slice()) {
        Some(pool) => pool,
        None => {
            return Err(LiquidityPoolError::NotInitialized);
        },
    };
    plan_redemption(&pool, accounts, liquidity_amount)
}

// ---------------------------------------------------------------------------
// Swap
// ---------------------------------------------------------------------------
/// The pool's asset type on the input side of a swap.
pub open spec fn mint_in(pool: LiquidityPool, a_to_b: bool) -> Address {
    if a_to_b {
        pool.token_a_mint
    } else {
        pool.token_b_mint
    }
}

/// The pool's asset type on the output side of a swap.
pub open spec fn mint_out(pool: LiquidityPool, a_to_b: bool) -> Address {
    if a_to_b {
        pool.token_b_mint
    } else {
        pool.token_a_mint
    }
}

/// The pool's vault on the input side of a swap.
pub open spec fn vault_in(pool: LiquidityPool, a_to_b: bool) -> Address {
    if a_to_b {
        pool.token_a_vault
    } else {
        pool.token_b_vault
    }
}

/// The pool's vault on the output side of a swap.
pub open spec fn vault_out(pool: LiquidityPool, a_to_b: bool) -> Address {
    if a_to_b {
        pool.token_b_vault
    } else {
        pool.token_a_vault
    }
}

/// The vaults handed in are the pool's vaults for the direction, and the
/// user's input and output accounts hold the asset types of the direction.
pub open spec fn swap_matches_pool(pool: LiquidityPool, accounts: Seq<Account>, a_to_b: bool) -> bool {
    &&& vault_in(pool, a_to_b)@ == accounts[3].key@
    &&& vault_out(pool, a_to_b)@ == accounts[4].key@
    &&& accounts[1].holds_mint(mint_in(pool, a_to_b))
    &&& accounts[2].holds_mint(mint_out(pool, a_to_b))
}

/// The requests of a swap: the input from the user to the input vault, on
/// the user's word; then the output from the output vault to the user, on
/// the pool authority's word.
pub open spec fn swap_requests(
    pool: LiquidityPool,
    accounts: Seq<Account>,
    amount_in: u64,
    amount_out: u64,
) -> Seq<TokenRequest> {
    seq![
        TokenRequest::Transfer {
            source: accounts[1].key,
            destination: accounts[3].key,
            authority: accounts[6].key,
            amount: amount_in,
        },
        TokenRequest::Transfer {
            source: accounts[4].key,
            destination: accounts[2].key,
            authority: pool.authority,
            amount: amount_out,
        },
    ]
}

/// What a swap against `pool` comes to once the accounts are accepted.
pub open spec fn trade_result(
    pool: LiquidityPool,
    accounts: Seq<Account>,
    amount_in: u64,
    a_to_b: bool,
) -> Outcome {
    let reserve_in = pool.reserve_in(a_to_b);
    let reserve_out = pool.reserve_out(a_to_b);
    let amount_out = swap_output(reserve_in, reserve_out, amount_in);
    if amount_in == 0 {
        Err(LiquidityPoolError::InvalidAmount)
    } else if amount_in * 9970 > u64::MAX || reserve_in + after_fee(amount_in) == 0 {
        Err(LiquidityPoolError::ArithmeticOverflow)
    } else if amount_out == 0 {
        Err(LiquidityPoolError::InvalidAmount)
    } else if reserve_in + amount_in > u64::MAX {
        Err(LiquidityPoolError::ArithmeticOverflow)
    } else {
        Ok(
            (
                swap_requests(pool, accounts, amount_in, amount_out as u64),
                pool.after_swap(a_to_b, amount_in, amount_out as u64),
            ),
        )
    }
}

/// What Swap comes to. The accounts are, in order: the pool record, the
/// user's input account, the user's output account, the input vault, the
/// output vault, the token ledger, the user.
pub open spec fn swap_result(
    program_id: Address,
    accounts: Seq<Account>,
    amount_in: u64,
    a_to_b: bool,
) -> Outcome {
    match swap_check(program_id, accounts) {
        Err(e) => Err(e),
        Ok(_) => match stored_pool(accounts[0].data@) {
            None => Err(LiquidityPoolError::NotInitialized),
            Some(pool) => if !swap_matches_pool(pool, accounts, a_to_b) {
                Err(LiquidityPoolError::InvalidAccount)
            } else {
                trade_result(pool, accounts, amount_in, a_to_b)
            },
        },
    }
}

/// Plans a swap against `pool`, with the accounts of Swap already accepted:
/// the output, the two requests, and the record with the input added on one
/// side and the output taken off the other.
///
/// The result is exactly [`trade_result`]. No input and no output are
/// `InvalidAmount`. An admitted swap does not lower the product of the
/// reserves, neither as the price formula sees it (input after the fee) nor
/// as the record holds it.
pub fn plan_swap(pool: &LiquidityPool, accounts: &[Account], amount_in: u64, a_to_b: bool) -> (res:
    Result<PoolUpdate, LiquidityPoolError>)
    requires
        accounts@.len() >= 7,
    ensures
        outcome(res) == trade_result(*pool, accounts@, amount_in, a_to_b),
        amount_in == 0 ==> res is Err,
        res is Ok ==> ({
            let after = res->Ok_0.pool;
            &&& (pool.reserve_in(a_to_b) + after_fee(amount_in)) * after.reserve_out(a_to_b)
                >= pool.reserve_in(a_to_b) * pool.reserve_out(a_to_b)
            &&& after.token_a_reserve * after.token_b_reserve >= pool.token_a_reserve
                * pool.token_b_reserve
            &&& pool.wf() ==> after.wf()
        }),
{
    let user_input_token = &accounts[1];
    let user_output_token = &accounts[2];
    let input_vault = &accounts[3];
    let output_vault = &accounts[4];
    let user = &accounts[6];
    let (reserve_in, reserve_out) = if a_to_b {
        (pool.token_a_reserve, pool.token_b_reserve)
    } else {
        (pool.token_b_reserve, pool.token_a_reserve)
    };
    if amount_in == 0 {
        return Err(LiquidityPoolError::InvalidAmount);
    }
    let amount_out: u64 = match compute_swap_output(reserve_in, reserve_out, amount_in) {
        Ok(amount_out) => amount_out,
        Err(e) => {
            return Err(e);
        },
    };
    if amount_out == 0 {
        return Err(LiquidityPoolError::InvalidAmount);
    }
    let mut requests: Vec<TokenRequest> = Vec::new();
    requests.push(
        TokenRequest::Transfer {
            source: user_input_token.key,
            destination: input_vault.key,
            authority: user.key,
            amount: amount_in,
        },
    );
    requests.push(
        TokenRequest::Transfer {
            source: output_vault.key,
            destination: user_output_token.key,
            authority: pool.authority,
            amount: amount_out,
        },
    );
    proof {
        assert(requests@ =~= swap_requests(*pool, accounts@, amount_in, amount_out));
        lemma_swap_keeps_product(reserve_in, reserve_out, amount_in);
    }
    match pool.trade(a_to_b, amount_in, amount_out) {
        Ok(updated) => {
            proof {
                let x = (reserve_in + amount_in) as int;
                let y = (reserve_out - amount_out) as int;
                assert(x * y == y * x) by (nonlinear_arith);
                assert(reserve_in * reserve_out == reserve_out * reserve_in) by (nonlinear_arith);
            }
            Ok(PoolUpdate { requests, pool: updated })
        },
        Err(e) => Err(e),
    }
}

/// Trades `amount_in` of one asset for the other; `a_to_b` gives the
/// direction.
///
/// The result is exactly [`swap_result`]. In particular: an amount of zero is
/// always refused; a user who did not sign is refused as `Unauthorized` once
/// flags and owners are in order; an admitted swap does not lower the product
/// of the reserves, neither as the price formula sees it (input after the
/// fee) nor as the record holds it; and a pool that satisfied its invariant
/// still does.
pub fn swap(program_id: &Address, accounts: &[Account], amount_in: u64, a_to_b: bool) -> (res:
    Result<PoolUpdate, LiquidityPoolError>)
    ensures
        outcome(res) == swap_result(*program_id, accounts@, amount_in, a_to_b),
        amount_in == 0 ==> res is Err,
        accounts@.len() >= 7 && !accounts@[6].is_signer ==> res is Err,
        swap_accounts_ok(*program_id, accounts@) && !accounts@[6].is_signer ==> res is Err
            && res->Err_0 == LiquidityPoolError::Unauthorized,
        res is Ok ==> ({
            let before = stored_pool(accounts@[0].data@)->Some_0;
            let after = res->Ok_0.pool;
            &&& (before.reserve_in(a_to_b) + after_fee(amount_in)) * after.reserve_out(a_to_b)
                >= before.reserve_in(a_to_b) * before.reserve_out(a_to_b)
            &&& after.token_a_reserve * after.token_b_reserve >= before.token_a_reserve
                * before.token_b_reserve
            &&& before.wf() ==> after.wf()
        }),
{
    match check_swap_accounts(program_id, accounts) {
        Ok(_) => {},
        Err(e) => {
            return Err(e);
        },
    }
    let pool_state = &accounts[0];
    let user_input_token = &accounts[1];
    let user_output_token = &accounts[2];
    let input_vault = &accounts[3];
    let output_vault = &accounts[4];

    let pool: LiquidityPool = match LiquidityPool::unpack(pool_state.data.as_slice()) {
        Some(pool) => pool,
        None => {
            return Err(LiquidityPoolError::NotInitialized);
        },
    };
    let (pool_vault_in, pool_vault_out, pool_mint_in, pool_mint_out) = if a_to_b {
        (pool.token_a_vault, pool.token_b_vault, pool.token_a_mint, pool.token_b_mint)
    } else {
        (pool.token_b_vault, pool.token_a_vault, pool.token_b_mint, pool.token_a_mint)
    };
    if !pool_vault_in.same(&input_vault.key) || !pool_vault_out.same(&output_vault.key) {
        return Err(LiquidityPoolError::InvalidAccount);
    }
    if !user_input_token.is_token_account_of(&pool_mint_in)
        || !user_output_token.is_token_account_of(&pool_mint_out) {
        return Err(LiquidityPoolError::InvalidAccount);
    }
    plan_swap(&pool, accounts, amount_in, a_to_b)
}

// ---------------------------------------------------------------------------
// Dispatch
// ---------------------------------------------------------------------------
/// What an operation comes to.
pub open spec fn process_result(
    program_id: Address,
    accounts: Seq<Account>,
    instruction: PoolInstruction,
) -> Outcome {
    match instruction {
        PoolInstruction::InitializePool => match initialize_result(program_id, accounts) {
            Ok(pool) => Ok((Seq::<TokenRequest>::empty(), pool)),
            Err(e) => Err(e),
        },
        PoolInstruction::AddLiquidity { amount_a, amount_b } => add_liquidity_result(
            program_id,
            accounts,
            amount_a,
            amount_b,
        ),
        PoolInstruction::RemoveLiquidity { liquidity_amount } => remove_liquidity_result(
            program_id,
            accounts,
            liquidity_amount,
        ),
        PoolInstruction::Swap { amount_in, a_to_b } => swap_result(
            program_id,
            accounts,
            amount_in,
            a_to_b,
        ),
    }
}

/// Carries out one operation: each of the four goes to its own function, and
/// Initialize, which asks nothing of the token ledger, hands back no
/// requests.
pub fn process_instruction(
    program_id: &Address,
    accounts: &[Account],
    instruction: &PoolInstruction,
) -> (res: Result<PoolUpdate, LiquidityPoolError>)
    ensures
        outcome(res) == process_result(*program_id, accounts@, *instruction),
{
    match *instruction {
        PoolInstruction::InitializePool => match initialize_pool(program_id, accounts) {
            Ok(pool) => {
                let requests: Vec<TokenRequest> = Vec::new();
                proof {
                    assert(requests@ =~= Seq::<TokenRequest>::empty());
                }
                Ok(PoolUpdate { requests, pool })
            },
            Err(e) => Err(e),
        },
        PoolInstruction::AddLiquidity { amount_a, amount_b } => add_liquidity(
            program_id,
            accounts,
            amount_a,
            amount_b,
        ),
        PoolInstruction::RemoveLiquidity { liquidity_amount } => remove_liquidity(
            program_id,
            accounts,
            liquidity_amount,
        ),
        PoolInstruction::Swap { amount_in, a_to_b } => swap(
            program_id,
            accounts,
            amount_in,
            a_to_b,
        ),
    }
}

} // verus!
