//! The pool record and its stored form.

use crate::account::{lemma_address_by_view, Address};
use crate::error::LiquidityPoolError;
use vstd::bytes::{
    lemma_auto_spec_u64_to_from_le_bytes, spec_u64_from_le_bytes, spec_u64_to_le_bytes,
    u64_from_le_bytes, u64_to_le_bytes,
};
use vstd::prelude::*;
use vstd::slice::slice_subrange;

verus! {

/// Number of bytes in a stored pool record: six addresses and three 64-bit
/// numbers.
pub const POOL_RECORD_LEN: usize = 216;

/// The record of one pool.
#[derive(Debug, Clone, Copy, PartialEq, Eq)]
pub struct LiquidityPool {
    /// The program-derived signer that moves the vaults' funds.
    pub authority: Address,
    /// The first asset type.
    pub token_a_mint: Address,
    /// The second asset type.
    pub token_b_mint: Address,
    /// The ledger account that holds the pooled first asset.
    pub token_a_vault: Address,
    /// The ledger account that holds the pooled second asset.
    pub token_b_vault: Address,
    /// The share token's type.
    pub liquidity_mint: Address,
    /// Shares outstanding.
    pub liquidity_supply: u64,
    /// Recorded reserve of the first asset.
    pub token_a_reserve: u64,
    /// Recorded reserve of the second asset.
    pub token_b_reserve: u64,
}

impl LiquidityPool {
    /// What holds of a pool between operations: the two asset types differ,
    /// and no shares are outstanding exactly when both reserves are empty.
    pub open spec fn wf(&self) -> bool {
        &&& self.token_a_mint@ != self.token_b_mint@
        &&& (self.liquidity_supply == 0 <==> (self.token_a_reserve == 0 && self.token_b_reserve
            == 0))
    }

    /// The stored form: the fields in declaration order, each address as its
    /// 32 bytes, each number as 8 bytes, lowest first.
    pub open spec fn spec_pack(&self) -> Seq<u8> {
        self.authority@ + self.token_a_mint@ + self.token_b_mint@ + self.token_a_vault@
            + self.token_b_vault@ + self.liquidity_mint@ + spec_u64_to_le_bytes(
            self.liquidity_supply,
        ) + spec_u64_to_le_bytes(self.token_a_reserve) + spec_u64_to_le_bytes(
            self.token_b_reserve,
        )
    }

    /// Where each field stands in the stored form.
    pub proof fn lemma_pack_layout(&self)
        ensures
            self.spec_pack().len() == 216,
            self.spec_pack().subrange(0, 32) == self.authority@,
            self.spec_pack().subrange(32, 64) == self.token_a_mint@,
            self.spec_pack().subrange(64, 96) == self.token_b_mint@,
            self.spec_pack().subrange(96, 128) == self.token_a_vault@,
            self.spec_pack().subrange(128, 160) == self.token_b_vault@,
            self.spec_pack().subrange(160, 192) == self.liquidity_mint@,
            self.spec_pack().subrange(192, 200) == spec_u64_to_le_bytes(self.liquidity_supply),
            self.spec_pack().subrange(200, 208) == spec_u64_to_le_bytes(self.token_a_reserve),
            self.spec_pack().subrange(208, 216) == spec_u64_to_le_bytes(self.token_b_reserve),
    {
        lemma_auto_spec_u64_to_from_le_bytes();
        let p = self.spec_pack();
        assert(self.authority@.len() == 32);
        assert(self.token_a_mint@.len() == 32);
        assert(self.token_b_mint@.len() == 32);
        assert(self.token_a_vault@.len() == 32);
        assert(self.token_b_vault@.len() == 32);
        assert(self.liquidity_mint@.len() == 32);
        assert(p.subrange(0, 32) =~= self.authority@);
        assert(p.subrange(32, 64) =~= self.token_a_mint@);
        assert(p.subrange(64, 96) =~= self.token_b_mint@);
        assert(p.subrange(96, 128) =~= self.token_a_vault@);
        assert(p.subrange(128, 160) =~= self.token_b_vault@);
        assert(p.subrange(160, 192) =~= self.liquidity_mint@);
        assert(p.subrange(192, 200) =~= spec_u64_to_le_bytes(self.liquidity_supply));
        assert(p.subrange(200, 208) =~= spec_u64_to_le_bytes(self.token_a_reserve));
        assert(p.subrange(208, 216) =~= spec_u64_to_le_bytes(self.token_b_reserve));
    }

    /// The stored form of the record.
    pub fn pack(&self) -> (out: Vec<u8>)
        ensures
            out@ == self.spec_pack(),
            out@.len() == 216,
    {
        let mut out: Vec<u8> = Vec::new();
        self.authority.write(&mut out);
        self.token_a_mint.write(&mut out);
        self.token_b_mint.write(&mut out);
        self.token_a_vault.write(&mut out);
        self.token_b_vault.write(&mut out);
        self.liquidity_mint.write(&mut out);
        let mut supply = u64_to_le_bytes(self.liquidity_supply);
        out.append(&mut supply);
        let mut reserve_a = u64_to_le_bytes(self.token_a_reserve);
        out.append(&mut reserve_a);
        let mut reserve_b = u64_to_le_bytes(self.token_b_reserve);
        out.append(&mut reserve_b);
        proof {
            self.lemma_pack_layout();
            assert(out@ =~= self.spec_pack());
        }
        out
    }

    /// Reads a stored record. Storage of exactly 216 bytes holds the one
    /// record whose stored form it is; storage of any other length holds none.
    pub fn unpack(data: &[u8]) -> (res: Option<LiquidityPool>)
        ensures
            res is Some <==> data@.len() == 216,
            res is Some ==> res->Some_0.spec_pack() == data@,
            res == stored_pool(data@),
    {
        if data.len() != POOL_RECORD_LEN {
            return None;
        }
        let pool = LiquidityPool {
            authority: Address::read(data, 0),
            token_a_mint: Address::read(data, 32),
            token_b_mint: Address::read(data, 64),
            token_a_vault: Address::read(data, 96),
            token_b_vault: Address::read(data, 128),
            liquidity_mint: Address::read(data, 160),
            liquidity_supply: u64_from_le_bytes(slice_subrange(data, 192, 200)),
            token_a_reserve: u64_from_le_bytes(slice_subrange(data, 200, 208)),
            token_b_reserve: u64_from_le_bytes(slice_subrange(data, 208, 216)),
        };
        proof {
            lemma_auto_spec_u64_to_from_le_bytes();
            pool.lemma_pack_layout();
            let p = pool.spec_pack();
            let d = data@;
            assert(spec_u64_to_le_bytes(pool.liquidity_supply) == d.subrange(192, 200));
            assert(spec_u64_to_le_bytes(pool.token_a_reserve) == d.subrange(200, 208));
            assert(spec_u64_to_le_bytes(pool.token_b_reserve) == d.subrange(208, 216));
            assert forall|i: int| 0 <= i < 216 implies p[i] == d[i] by {
                if i < 32 {
                    assert(p[i] == p.subrange(0, 32)[i]);
                    assert(d[i] == d.subrange(0, 32)[i]);
                } else if i < 64 {
                    assert(p[i] == p.subrange(32, 64)[i - 32]);
                    assert(d[i] == d.subrange(32, 64)[i - 32]);
                } else if i < 96 {
                    assert(p[i] == p.subrange(64, 96)[i - 64]);
                    assert(d[i] == d.subrange(64, 96)[i - 64]);
                } else if i < 128 {
                    assert(p[i] == p.subrange(96, 128)[i - 96]);
                    assert(d[i] == d.subrange(96, 128)[i - 96]);
                } else if i < 160 {
                    assert(p[i] == p.subrange(128, 160)[i - 128]);
                    assert(d[i] == d.subrange(128, 160)[i - 128]);
                } else if i < 192 {
                    assert(p[i] == p.subrange(160, 192)[i - 160]);
                    assert(d[i] == d.subrange(160, 192)[i - 160]);
                } else if i < 200 {
                    assert(p[i] == p.subrange(192, 200)[i - 192]);
                    assert(d[i] == d.subrange(192, 200)[i - 192]);
                } else if i < 208 {
                    assert(p[i] == p.subrange(200, 208)[i - 200]);
                    assert(d[i] == d.subrange(200, 208)[i - 200]);
                } else {
                    assert(p[i] == p.subrange(208, 216)[i - 208]);
                    assert(d[i] == d.subrange(208, 216)[i - 208]);
                }
            }
            assert(p =~= d);
            lemma_pack_injective(pool, stored_pool(d)->Some_0);
        }
        Some(pool)
    }

    /// The record with `amount_a` and `amount_b` added to the reserves and
    /// `shares` to the supply.
    pub open spec fn after_deposit(self, amount_a: u64, amount_b: u64, shares: u64) -> LiquidityPool {
        LiquidityPool {
            liquidity_supply: (self.liquidity_supply + shares) as u64,
            token_a_reserve: (self.token_a_reserve + amount_a) as u64,
            token_b_reserve: (self.token_b_reserve + amount_b) as u64,
            ..self
        }
    }

    /// Whether the reserves and the supply stay within 64 bits under a
    /// deposit.
    pub open spec fn deposit_fits(self, amount_a: u64, amount_b: u64, shares: u64) -> bool {
        &&& self.token_a_reserve + amount_a <= u64::MAX
        &&& self.token_b_reserve + amount_b <= u64::MAX
        &&& self.liquidity_supply + shares <= u64::MAX
    }

    /// The record with `amount_a` and `amount_b` taken from the reserves and
    /// `liquidity` from the supply.
    pub open spec fn after_withdrawal(
        self,
        liquidity: u64,
        amount_a: u64,
        amount_b: u64,
    ) -> LiquidityPool {
        LiquidityPool {
            liquidity_supply: (self.liquidity_supply - liquidity) as u64,
            token_a_reserve: (self.token_a_reserve - amount_a) as u64,
            token_b_reserve: (self.token_b_reserve - amount_b) as u64,
            ..self
        }
    }

    /// Whether the reserves and the supply cover a withdrawal.
    pub open spec fn withdrawal_fits(self, liquidity: u64, amount_a: u64, amount_b: u64) -> bool {
        &&& amount_a <= self.token_a_reserve
        &&& amount_b <= self.token_b_reserve
        &&& liquidity <= self.liquidity_supply
    }

    /// The reserve that a swap in the given direction pays into.
    pub open spec fn reserve_in(self, a_to_b: bool) -> u64 {
        if a_to_b {
            self.token_a_reserve
        } else {
            self.token_b_reserve
        }
    }

    /// The reserve that a swap in the given direction pays out of.
    pub open spec fn reserve_out(self, a_to_b: bool) -> u64 {
        if a_to_b {
            self.token_b_reserve
        } else {
            self.token_a_reserve
        }
    }

    /// The record with `amount_in` added on the input side of a swap and
    /// `amount_out` taken on the output side.
    pub open spec fn after_swap(self, a_to_b: bool, amount_in: u64, amount_out: u64) -> LiquidityPool {
        if a_to_b {
            LiquidityPool {
                token_a_reserve: (self.token_a_reserve + amount_in) as u64,
                token_b_reserve: (self.token_b_reserve - amount_out) as u64,
                ..self
            }
        } else {
            LiquidityPool {
                token_a_reserve: (self.token_a_reserve - amount_out) as u64,
                token_b_reserve: (self.token_b_reserve + amount_in) as u64,
                ..self
            }
        }
    }

    /// Whether the reserves stay within 64 bits, and not below zero, under
    /// a swap.
    pub open spec fn swap_fits(self, a_to_b: bool, amount_in: u64, amount_out: u64) -> bool {
        &&& self.reserve_in(a_to_b) + amount_in <= u64::MAX
        &&& amount_out <= self.reserve_out(a_to_b)
    }

    /// Records a deposit. A reserve or the supply that would leave 64 bits is
    /// `ArithmeticOverflow`: neither wraps. In particular a reserve or a
    /// supply that stands at the largest 64-bit number takes no more.
    pub fn deposit(&self, amount_a: u64, amount_b: u64, shares: u64) -> (res: Result<
        LiquidityPool,
        LiquidityPoolError,
    >)
        ensures
            res == (if self.deposit_fits(amount_a, amount_b, shares) {
                Ok(self.after_deposit(amount_a, amount_b, shares))
            } else {
                Err(LiquidityPoolError::ArithmeticOverflow)
            }),
            (self.token_a_reserve == u64::MAX && amount_a > 0) || (self.token_b_reserve == u64::MAX
                && amount_b > 0) || (self.liquidity_supply == u64::MAX && shares > 0) ==> res
                == Err::<LiquidityPool, LiquidityPoolError>(LiquidityPoolError::ArithmeticOverflow),
            res is Ok && self.wf() && amount_a > 0 && amount_b > 0 && shares > 0
                ==> res->Ok_0.wf(),
    {
        let reserve_a: u64 = match self.token_a_reserve.checked_add(amount_a) {
            Some(v) => v,
            None => {
                return Err(LiquidityPoolError::ArithmeticOverflow);
            },
        };
        let reserve_b: u64 = match self.token_b_reserve.checked_add(amount_b) {
            Some(v) => v,
            None => {
                return Err(LiquidityPoolError::ArithmeticOverflow);
            },
        };
        let supply: u64 = match self.liquidity_supply.checked_add(shares) {
            Some(v) => v,
            None => {
                return Err(LiquidityPoolError::ArithmeticOverflow);
            },
        };
        Ok(
            LiquidityPool {
                liquidity_supply: supply,
                token_a_reserve: reserve_a,
                token_b_reserve: reserve_b,
                ..*self
            },
        )
    }

    /// Records a withdrawal. An amount beyond its reserve, or more shares
    /// than are outstanding, is `ArithmeticOverflow`.
    pub fn withdraw(&self, liquidity: u64, amount_a: u64, amount_b: u64) -> (res: Result<
        LiquidityPool,
        LiquidityPoolError,
    >)
        ensures
            res == (if self.withdrawal_fits(liquidity, amount_a, amount_b) {
                Ok(self.after_withdrawal(liquidity, amount_a, amount_b))
            } else {
                Err(LiquidityPoolError::ArithmeticOverflow)
            }),
    {
        let reserve_a: u64 = match self.token_a_reserve.checked_sub(amount_a) {
            Some(v) => v,
            None => {
                return Err(LiquidityPoolError::ArithmeticOverflow);
            },
        };
        let reserve_b: u64 = match self.token_b_reserve.checked_sub(amount_b) {
            Some(v) => v,
            None => {
                return Err(LiquidityPoolError::ArithmeticOverflow);
            },
        };
        let supply: u64 = match self.liquidity_supply.checked_sub(liquidity) {
            Some(v) => v,
            None => {
                return Err(LiquidityPoolError::ArithmeticOverflow);
            },
        };
        Ok(
            LiquidityPool {
                liquidity_supply: supply,
                token_a_reserve: reserve_a,
                token_b_reserve: reserve_b,
                ..*self
            },
        )
    }

    /// Records a swap: `amount_in` more on the input side, `amount_out` less
    /// on the output side. An input reserve that would leave 64 bits, or an
    /// output beyond its reserve, is `ArithmeticOverflow`.
    pub fn trade(&self, a_to_b: bool, amount_in: u64, amount_out: u64) -> (res: Result<
        LiquidityPool,
        LiquidityPoolError,
    >)
        ensures
            res == (if self.swap_fits(a_to_b, amount_in, amount_out) {
                Ok(self.after_swap(a_to_b, amount_in, amount_out))
            } else {
                Err(LiquidityPoolError::ArithmeticOverflow)
            }),
            self.reserve_in(a_to_b) == u64::MAX && amount_in > 0 ==> res == Err::<
                LiquidityPool,
                LiquidityPoolError,
            >(LiquidityPoolError::ArithmeticOverflow),
            res is Ok && self.wf() && amount_in > 0 && amount_out > 0 ==> res->Ok_0.wf(),
    {
        let (reserve_in, reserve_out) = if a_to_b {
            (self.token_a_reserve, self.token_b_reserve)
        } else {
            (self.token_b_reserve, self.token_a_reserve)
        };
        let grown: u64 = match reserve_in.checked_add(amount_in) {
            Some(v) => v,
            None => {
                return Err(LiquidityPoolError::ArithmeticOverflow);
            },
        };
        let shrunk: u64 = match reserve_out.checked_sub(amount_out) {
            Some(v) => v,
            None => {
                return Err(LiquidityPoolError::ArithmeticOverflow);
            },
        };
        if a_to_b {
            Ok(LiquidityPool { token_a_reserve: grown, token_b_reserve: shrunk, ..*self })
        } else {
            Ok(LiquidityPool { token_a_reserve: shrunk, token_b_reserve: grown, ..*self })
        }
    }
}

/// Reading back the stored form of a record gives that record.
pub proof fn lemma_stored_pool_of_pack(p: LiquidityPool)
    ensures
        stored_pool(p.spec_pack()) == Some(p),
{
    p.lemma_pack_layout();
    lemma_pack_injective(stored_pool(p.spec_pack())->Some_0, p);
}

/// The record that storage `data` holds: the one whose stored form is `data`,
/// which has 216 bytes; other storage holds none.
pub open spec fn stored_pool(data: Seq<u8>) -> Option<LiquidityPool> {
    if data.len() == 216 {
        Some(choose|p: LiquidityPool| p.spec_pack() == data)
    } else {
        None
    }
}

/// Two records with the same stored form are the same record: reading back
/// what was stored gives the record that was stored.
pub proof fn lemma_pack_injective(p: LiquidityPool, q: LiquidityPool)
    requires
        p.spec_pack() == q.spec_pack(),
    ensures
        p == q,
{
    lemma_auto_spec_u64_to_from_le_bytes();
    p.lemma_pack_layout();
    q.lemma_pack_layout();
    lemma_address_by_view(p.authority, q.authority);
    lemma_address_by_view(p.token_a_mint, q.token_a_mint);
    lemma_address_by_view(p.token_b_mint, q.token_b_mint);
    lemma_address_by_view(p.token_a_vault, q.token_a_vault);
    lemma_address_by_view(p.token_b_vault, q.token_b_vault);
    lemma_address_by_view(p.liquidity_mint, q.liquidity_mint);
    assert(spec_u64_from_le_bytes(spec_u64_to_le_bytes(p.liquidity_supply))
        == spec_u64_from_le_bytes(spec_u64_to_le_bytes(q.liquidity_supply)));
    assert(spec_u64_from_le_bytes(spec_u64_to_le_bytes(p.token_a_reserve))
        == spec_u64_from_le_bytes(spec_u64_to_le_bytes(q.token_a_reserve)));
    assert(spec_u64_from_le_bytes(spec_u64_to_le_bytes(p.token_b_reserve))
        == spec_u64_from_le_bytes(spec_u64_to_le_bytes(q.token_b_reserve)));
}

} // verus!
