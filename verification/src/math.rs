//! The pool's arithmetic: shares minted for a deposit, amounts paid for a
//! redemption, and the output of a swap.

use crate::error::LiquidityPoolError;
use num::integer::Roots;
use vstd::prelude::*;

verus! {

/// Numerator of the share of a swap's input that enters the price formula.
pub const FEE_KEPT_NUMERATOR: u64 = 9970;

/// Denominator of the swap fee.
pub const FEE_DENOMINATOR: u64 = 10000;

/// `r` is the integer square root of `x`, rounded down.
pub open spec fn is_floor_sqrt(x: nat, r: nat) -> bool {
    r * r <= x < (r + 1) * (r + 1)
}

/// The integer square root of `x`, rounded down.
pub open spec fn floor_sqrt(x: nat) -> nat {
    choose|r: nat| is_floor_sqrt(x, r)
}

/// The smaller of two integers.
pub open spec fn min_int(x: int, y: int) -> int {
    if x <= y {
        x
    } else {
        y
    }
}

/// Shares owed to a deposit of `amount_a` and `amount_b` into a pool with
/// `supply` shares outstanding: the rounded-down geometric mean for the first
/// deposit, else the smaller of the two proportional contributions.
pub open spec fn deposit_shares(
    supply: u64,
    reserve_a: u64,
    reserve_b: u64,
    amount_a: u64,
    amount_b: u64,
) -> int
    recommends
        supply != 0 ==> reserve_a != 0 && reserve_b != 0,
{
    if supply == 0 {
        floor_sqrt((amount_a * amount_b) as nat) as int
    } else {
        min_int(amount_a * supply / (reserve_a as int), amount_b * supply / (reserve_b as int))
    }
}

/// What redeeming `liquidity` of `supply` shares pays out of `reserve`.
pub open spec fn redeemed(liquidity: u64, reserve: u64, supply: u64) -> int
    recommends
        supply != 0,
{
    liquidity * reserve / (supply as int)
}

/// The part of a swap's input that enters the price formula.
pub open spec fn after_fee(amount_in: u64) -> int {
    amount_in * 9970 / 10000
}

/// `x / d`, rounded up.
pub open spec fn div_ceil(x: int, d: int) -> int
    recommends
        d > 0,
{
    (x + d - 1) / d
}

/// What the output side keeps in a swap: the least reserve whose product with
/// the enlarged input side is not below the product before the swap.
pub open spec fn output_kept(reserve_in: u64, reserve_out: u64, amount_in: u64) -> int
    recommends
        reserve_in + after_fee(amount_in) > 0,
{
    div_ceil(reserve_in * reserve_out, reserve_in + after_fee(amount_in))
}

/// What a swap of `amount_in` pays out.
pub open spec fn swap_output(reserve_in: u64, reserve_out: u64, amount_in: u64) -> int
    recommends
        reserve_in + after_fee(amount_in) > 0,
{
    reserve_out - output_kept(reserve_in, reserve_out, amount_in)
}

/// Every natural number has a rounded-down square root.
pub proof fn lemma_floor_sqrt_exists(x: nat)
    ensures
        is_floor_sqrt(x, floor_sqrt(x)),
    decreases x,
{
    if x == 0 {
        let z: nat = 0;
        assert(z * z <= x < (z + 1) * (z + 1)) by (nonlinear_arith)
            requires
                z == 0,
                x == 0,
        ;
        assert(is_floor_sqrt(x, z));
    } else {
        lemma_floor_sqrt_exists((x - 1) as nat);
        let r = floor_sqrt((x - 1) as nat);
        if (r + 1) * (r + 1) <= x {
            assert(x < (r + 1 + 1) * (r + 1 + 1)) by (nonlinear_arith)
                requires
                    x - 1 < (r + 1) * (r + 1),
            ;
            assert(is_floor_sqrt(x, r + 1));
        } else {
            assert(r * r <= x);
            assert(is_floor_sqrt(x, r));
        }
    }
}

/// A number that squares to at most `x`, while its successor squares to more,
/// is the rounded-down square root of `x`: there is only one.
pub proof fn lemma_floor_sqrt_unique(x: nat, r: nat)
    requires
        is_floor_sqrt(x, r),
    ensures
        floor_sqrt(x) == r,
{
    let s = floor_sqrt(x);
    assert(is_floor_sqrt(x, s));
    assert(s == r) by (nonlinear_arith)
        requires
            r * r <= x < (r + 1) * (r + 1),
            s * s <= x < (s + 1) * (s + 1),
    {
        if s < r {
            assert((s + 1) * (s + 1) <= r * r);
        } else if r < s {
            assert((r + 1) * (r + 1) <= s * s);
        }
    }
}

/// `Roots::sqrt` of the num crate on `u128`: the square root rounded down,
/// that is the `r` with `r * r <= x < (r + 1) * (r + 1)`.
#[verifier::external_body]
fn integer_sqrt(x: u128) -> (r: u128)
    ensures
        r * r <= x < (r + 1) * (r + 1),
{
    x.sqrt()
}

/// `x * y / d` rounded down, computed without loss.
fn mul_div(x: u64, y: u64, d: u64) -> (q: u128)
    requires
        d != 0,
    ensures
        q == x * y / (d as int),
{
    assert(0 <= x * y <= 0xffff_ffff_ffff_ffff * 0xffff_ffff_ffff_ffff) by (nonlinear_arith)
        requires
            0 <= x <= 0xffff_ffff_ffff_ffff,
            0 <= y <= 0xffff_ffff_ffff_ffff,
    ;
    (x as u128) * (y as u128) / (d as u128)
}

/// Shares minted for the first deposit into an empty pool.
pub fn first_deposit_shares(amount_a: u64, amount_b: u64) -> (shares: u64)
    ensures
        shares == floor_sqrt((amount_a * amount_b) as nat),
        is_floor_sqrt((amount_a * amount_b) as nat, shares as nat),
{
    assert(0 <= amount_a * amount_b <= 0xffff_ffff_ffff_ffff * 0xffff_ffff_ffff_ffff)
        by (nonlinear_arith)
        requires
            0 <= amount_a <= 0xffff_ffff_ffff_ffff,
            0 <= amount_b <= 0xffff_ffff_ffff_ffff,
    ;
    let product: u128 = (amount_a as u128) * (amount_b as u128);
    let root: u128 = integer_sqrt(product);
    proof {
        assert(root <= 0xffff_ffff_ffff_ffff) by (nonlinear_arith)
            requires
                root * root <= product,
                product <= 0xffff_ffff_ffff_ffff * 0xffff_ffff_ffff_ffff,
                root >= 0,
        {
            if root > 0xffff_ffff_ffff_ffff {
                assert(root * root >= 0x1_0000_0000_0000_0000 * 0x1_0000_0000_0000_0000);
            }
        }
        lemma_floor_sqrt_unique(product as nat, root as nat);
    }
    root as u64
}

/// Shares minted for a deposit.
///
/// The first deposit (no shares outstanding) mints the rounded-down square
/// root of the product of the amounts. A later one mints the smaller of the
/// two proportional contributions, each rounded down. A pool with shares
/// outstanding and an empty reserve has no proportion to go by, and a result
/// beyond 64 bits cannot be minted: both are `ArithmeticOverflow`.
pub fn shares_for_deposit(
    supply: u64,
    reserve_a: u64,
    reserve_b: u64,
    amount_a: u64,
    amount_b: u64,
) -> (res: Result<u64, LiquidityPoolError>)
    ensures
        res is Ok <==> (supply == 0 || (reserve_a != 0 && reserve_b != 0 && deposit_shares(
            supply,
            reserve_a,
            reserve_b,
            amount_a,
            amount_b,
        ) <= u64::MAX)),
        res is Ok ==> res->Ok_0 == deposit_shares(supply, reserve_a, reserve_b, amount_a, amount_b),
        res is Err ==> res->Err_0 == LiquidityPoolError::ArithmeticOverflow,
{
    if supply == 0 {
        return Ok(first_deposit_shares(amount_a, amount_b));
    }
    if reserve_a == 0 || reserve_b == 0 {
        return Err(LiquidityPoolError::ArithmeticOverflow);
    }
    let by_a: u128 = mul_div(amount_a, supply, reserve_a);
    let by_b: u128 = mul_div(amount_b, supply, reserve_b);
    let least: u128 = if by_a <= by_b {
        by_a
    } else {
        by_b
    };
    if least > u64::MAX as u128 {
        Err(LiquidityPoolError::ArithmeticOverflow)
    } else {
        Ok(least as u64)
    }
}

/// A deposit into a pool with shares outstanding mints one of the two
/// proportional contributions, the one that is not larger, so never more than
/// either side of the deposit implies: the minted shares are to the supply at
/// most as each amount is to its reserve.
pub proof fn lemma_later_deposit_limited(
    supply: u64,
    reserve_a: u64,
    reserve_b: u64,
    amount_a: u64,
    amount_b: u64,
)
    requires
        supply != 0,
        reserve_a != 0,
        reserve_b != 0,
    ensures
        ({
            let shares = deposit_shares(supply, reserve_a, reserve_b, amount_a, amount_b);
            let by_a = amount_a * supply / (reserve_a as int);
            let by_b = amount_b * supply / (reserve_b as int);
            &&& shares == by_a || shares == by_b
            &&& 0 <= shares <= by_a
            &&& shares <= by_b
            &&& shares * reserve_a <= amount_a * supply
            &&& shares * reserve_b <= amount_b * supply
        }),
{
    let s = supply as int;
    let ra = reserve_a as int;
    let rb = reserve_b as int;
    let a = amount_a as int;
    let b = amount_b as int;
    let by_a = a * s / ra;
    let by_b = b * s / rb;
    let shares = deposit_shares(supply, reserve_a, reserve_b, amount_a, amount_b);
    assert(0 <= by_a && by_a * ra <= a * s) by (nonlinear_arith)
        requires
            ra > 0,
            a >= 0,
            s >= 0,
            by_a == a * s / ra,
    ;
    assert(0 <= by_b && by_b * rb <= b * s) by (nonlinear_arith)
        requires
            rb > 0,
            b >= 0,
            s >= 0,
            by_b == b * s / rb,
    ;
    assert(shares * ra <= by_a * ra) by (nonlinear_arith)
        requires
            shares <= by_a,
            ra > 0,
    ;
    assert(shares * rb <= by_b * rb) by (nonlinear_arith)
        requires
            shares <= by_b,
            rb > 0,
    ;
}

/// What redeeming `liquidity` of the `supply` outstanding shares pays out of
/// `reserve`: the proportional part, rounded down.
pub fn redeem_amount(liquidity: u64, reserve: u64, supply: u64) -> (amount: u64)
    requires
        0 < liquidity <= supply,
    ensures
        amount == redeemed(liquidity, reserve, supply),
        amount <= reserve,
        liquidity == supply ==> amount == reserve,
{
    let q: u128 = mul_div(liquidity, reserve, supply);
    proof {
        lemma_redeemed_bounds(liquidity, reserve, supply);
    }
    q as u64
}

/// A redemption never pays more than the reserve, and redeeming every share
/// pays all of it.
pub proof fn lemma_redeemed_bounds(liquidity: u64, reserve: u64, supply: u64)
    requires
        0 < liquidity <= supply,
    ensures
        0 <= redeemed(liquidity, reserve, supply) <= reserve,
        liquidity == supply ==> redeemed(liquidity, reserve, supply) == reserve,
        liquidity < supply && reserve > 0 ==> redeemed(liquidity, reserve, supply) < reserve,
{
    let l = liquidity as int;
    let r = reserve as int;
    let s = supply as int;
    assert(0 <= l * r / s <= r && (l == s ==> l * r / s == r) && (l < s && r > 0 ==> l * r / s < r))
        by (nonlinear_arith)
        requires
            0 < l <= s,
            0 <= r,
    ;
}

/// The part of `amount_in` that enters the price formula: `amount_in` less
/// the fee of 30 parts in 10000, rounded down. The product with 9970 is taken
/// in 64 bits: where it does not fit, the result is `ArithmeticOverflow`.
pub fn amount_after_fee(amount_in: u64) -> (res: Result<u64, LiquidityPoolError>)
    ensures
        res is Ok <==> amount_in * 9970 <= u64::MAX,
        res is Ok ==> res->Ok_0 == after_fee(amount_in),
        res is Err ==> res->Err_0 == LiquidityPoolError::ArithmeticOverflow,
{
    match amount_in.checked_mul(FEE_KEPT_NUMERATOR) {
        Some(scaled) => Ok(scaled / FEE_DENOMINATOR),
        None => Err(LiquidityPoolError::ArithmeticOverflow),
    }
}

/// The output of a swap under the constant-product rule.
///
/// The output side keeps the least reserve whose product with the input
/// reserve, enlarged by the amount after the fee, is not below the product
/// before the swap; the rest is paid out. An input whose product with 9970
/// leaves 64 bits, and a swap in which the enlarged input side is zero, are
/// `ArithmeticOverflow`.
pub fn compute_swap_output(reserve_in: u64, reserve_out: u64, amount_in: u64) -> (res: Result<
    u64,
    LiquidityPoolError,
>)
    ensures
        res is Ok <==> amount_in * 9970 <= u64::MAX && reserve_in + after_fee(amount_in) > 0,
        res is Ok ==> res->Ok_0 == swap_output(reserve_in, reserve_out, amount_in),
        res is Err ==> res->Err_0 == LiquidityPoolError::ArithmeticOverflow,
{
    let net: u64 = match amount_after_fee(amount_in) {
        Ok(n) => n,
        Err(e) => {
            return Err(e);
        },
    };
    let divisor: u128 = reserve_in as u128 + net as u128;
    if divisor == 0 {
        return Err(LiquidityPoolError::ArithmeticOverflow);
    }
    assert(0 <= reserve_in * reserve_out <= 0xffff_ffff_ffff_ffff * 0xffff_ffff_ffff_ffff)
        by (nonlinear_arith)
        requires
            0 <= reserve_in <= 0xffff_ffff_ffff_ffff,
            0 <= reserve_out <= 0xffff_ffff_ffff_ffff,
    ;
    let product: u128 = (reserve_in as u128) * (reserve_out as u128);
    let kept: u128 = (product + (divisor - 1)) / divisor;
    proof {
        lemma_swap_keeps_product(reserve_in, reserve_out, amount_in);
    }
    Ok((reserve_out as u128 - kept) as u64)
}

/// A swap does not lower the product of the reserves: the input reserve
/// enlarged by the amount after the fee, times what the output side keeps, is
/// at least the product before the swap. The output is never negative, never
/// more than the output reserve, and leaves the output side non-empty
/// whenever both reserves were.
pub proof fn lemma_swap_keeps_product(reserve_in: u64, reserve_out: u64, amount_in: u64)
    requires
        reserve_in + after_fee(amount_in) > 0,
    ensures
        0 <= swap_output(reserve_in, reserve_out, amount_in) <= reserve_out,
        (reserve_in + after_fee(amount_in)) * (reserve_out - swap_output(
            reserve_in,
            reserve_out,
            amount_in,
        )) >= reserve_in * reserve_out,
        (reserve_in + amount_in) * (reserve_out - swap_output(reserve_in, reserve_out, amount_in))
            >= reserve_in * reserve_out,
        reserve_in > 0 && reserve_out > 0 ==> swap_output(reserve_in, reserve_out, amount_in)
            < reserve_out,
{
    let a = reserve_in as int;
    let b = reserve_out as int;
    let f = after_fee(amount_in);
    let d = a + f;
    let k = (a * b + d - 1) / d;
    let n = amount_in as int;
    assert(0 <= f <= n) by (nonlinear_arith)
        requires
            n >= 0,
            f == n * 9970 / 10000,
    ;
    assert(0 <= k <= b && d * k >= a * b && (a > 0 && b > 0 ==> k > 0)) by (nonlinear_arith)
        requires
            a >= 0,
            b >= 0,
            f >= 0,
            d == a + f,
            d > 0,
            k == (a * b + d - 1) / d,
    ;
    assert((a + n) * k >= d * k) by (nonlinear_arith)
        requires
            k >= 0,
            d == a + f,
            f <= n,
    ;
}

} // verus!
