//! The four operations as they arrive, and the requests that an operation
//! sends to the token ledger.

use crate::account::Address;
use crate::state::LiquidityPool;
use vstd::bytes::{
    lemma_auto_spec_u64_to_from_le_bytes, spec_u64_from_le_bytes, spec_u64_to_le_bytes,
    u64_from_le_bytes, u64_to_le_bytes,
};
use vstd::prelude::*;
use vstd::slice::slice_subrange;

verus! {

/// One operation on the pool.
#[derive(Debug, Clone, Copy, PartialEq, Eq, Structural)]
pub enum PoolInstruction {
    /// Create the pool record.
    InitializePool,
    /// Deposit both assets and receive shares.
    AddLiquidity { amount_a: u64, amount_b: u64 },
    /// Give shares back and receive both assets.
    RemoveLiquidity { liquidity_amount: u64 },
    /// Trade one asset for the other; `a_to_b` gives the direction.
    Swap { amount_in: u64, a_to_b: bool },
}

/// The byte that stands for a flag.
pub open spec fn flag_byte(flag: bool) -> u8 {
    if flag {
        1
    } else {
        0
    }
}

impl PoolInstruction {
    /// The encoded form: one byte that tells the operation (0 to 3), then its
    /// fields in order, a number as 8 bytes, lowest first, a flag as one byte
    /// 0 or 1.
    pub open spec fn spec_pack(&self) -> Seq<u8> {
        match *self {
            PoolInstruction::InitializePool => seq![0u8],
            PoolInstruction::AddLiquidity { amount_a, amount_b } => seq![1u8]
                + spec_u64_to_le_bytes(amount_a) + spec_u64_to_le_bytes(amount_b),
            PoolInstruction::RemoveLiquidity { liquidity_amount } => seq![2u8]
                + spec_u64_to_le_bytes(liquidity_amount),
            PoolInstruction::Swap { amount_in, a_to_b } => seq![3u8] + spec_u64_to_le_bytes(
                amount_in,
            ) + seq![flag_byte(a_to_b)],
        }
    }

    /// The encoded form of the operation.
    pub fn pack(&self) -> (out: Vec<u8>)
        ensures
            out@ == self.spec_pack(),
    {
        let mut out: Vec<u8> = Vec::new();
        match *self {
            PoolInstruction::InitializePool => {
                out.push(0u8);
            },
            PoolInstruction::AddLiquidity { amount_a, amount_b } => {
                out.push(1u8);
                let mut first = u64_to_le_bytes(amount_a);
                out.append(&mut first);
                let mut second = u64_to_le_bytes(amount_b);
                out.append(&mut second);
            },
            PoolInstruction::RemoveLiquidity { liquidity_amount } => {
                out.push(2u8);
                let mut amount = u64_to_le_bytes(liquidity_amount);
                out.append(&mut amount);
            },
            PoolInstruction::Swap { amount_in, a_to_b } => {
                out.push(3u8);
                let mut amount = u64_to_le_bytes(amount_in);
                out.append(&mut amount);
                out.push(if a_to_b { 1u8 } else { 0u8 });
            },
        }
        proof {
            assert(out@ =~= self.spec_pack());
        }
        out
    }

    /// Decodes an operation. The result is the one operation whose encoded
    /// form is `data`; where no operation encodes to `data` (an unknown first
    /// byte, missing or surplus bytes, a flag that is neither 0 nor 1), there
    /// is none.
    pub fn unpack(data: &[u8]) -> (res: Option<PoolInstruction>)
        ensures
            res is Some ==> res->Some_0.spec_pack() == data@,
            res is None ==> forall|i: PoolInstruction| #[trigger] i.spec_pack() != data@,
    {
        proof {
            lemma_auto_spec_u64_to_from_le_bytes();
        }
        let len: usize = data.len();
        let found: Option<PoolInstruction> = if len == 0 {
            None
        } else if data[0] == 0 && len == 1 {
            Some(PoolInstruction::InitializePool)
        } else if data[0] == 1 && len == 17 {
            let amount_a: u64 = u64_from_le_bytes(slice_subrange(data, 1, 9));
            let amount_b: u64 = u64_from_le_bytes(slice_subrange(data, 9, 17));
            Some(PoolInstruction::AddLiquidity { amount_a, amount_b })
        } else if data[0] == 2 && len == 9 {
            let liquidity_amount: u64 = u64_from_le_bytes(slice_subrange(data, 1, 9));
            Some(PoolInstruction::RemoveLiquidity { liquidity_amount })
        } else if data[0] == 3 && len == 10 && data[9] <= 1 {
            let amount_in: u64 = u64_from_le_bytes(slice_subrange(data, 1, 9));
            Some(PoolInstruction::Swap { amount_in, a_to_b: data[9] == 1 })
        } else {
            None
        };
        proof {
            match found {
                Some(i) => {
                    assert(i.spec_pack() =~= data@);
                },
                None => {
                    assert forall|i: PoolInstruction| #[trigger] i.spec_pack() != data@ by {
                        let p = i.spec_pack();
                        if p == data@ {
                            match i {
                                PoolInstruction::InitializePool => {
                                    assert(p.len() == 1 && p[0] == 0);
                                },
                                PoolInstruction::AddLiquidity { amount_a, amount_b } => {
                                    assert(p.len() == 17 && p[0] == 1);
                                },
                                PoolInstruction::RemoveLiquidity { liquidity_amount } => {
                                    assert(p.len() == 9 && p[0] == 2);
                                },
                                PoolInstruction::Swap { amount_in, a_to_b } => {
                                    assert(p.len() == 10 && p[0] == 3 && p[9] == flag_byte(
                                        a_to_b,
                                    ));
                                },
                            }
                        }
                    }
                },
            }
        }
        found
    }
}

/// Two operations with the same encoded form are the same operation:
/// decoding what was encoded gives the operation back.
pub proof fn lemma_instruction_pack_injective(i: PoolInstruction, j: PoolInstruction)
    requires
        i.spec_pack() == j.spec_pack(),
    ensures
        i == j,
{
    lemma_auto_spec_u64_to_from_le_bytes();
    let p = i.spec_pack();
    let q = j.spec_pack();
    assert(p.len() == q.len() && p[0] == q[0]);
    match (i, j) {
        (
            PoolInstruction::AddLiquidity { amount_a: a1, amount_b: b1 },
            PoolInstruction::AddLiquidity { amount_a: a2, amount_b: b2 },
        ) => {
            assert(p.subrange(1, 9) =~= spec_u64_to_le_bytes(a1));
            assert(q.subrange(1, 9) =~= spec_u64_to_le_bytes(a2));
            assert(p.subrange(9, 17) =~= spec_u64_to_le_bytes(b1));
            assert(q.subrange(9, 17) =~= spec_u64_to_le_bytes(b2));
            assert(spec_u64_from_le_bytes(spec_u64_to_le_bytes(a1)) == a1);
            assert(spec_u64_from_le_bytes(spec_u64_to_le_bytes(a2)) == a2);
            assert(spec_u64_from_le_bytes(spec_u64_to_le_bytes(b1)) == b1);
            assert(spec_u64_from_le_bytes(spec_u64_to_le_bytes(b2)) == b2);
        },
        (
            PoolInstruction::RemoveLiquidity { liquidity_amount: a1 },
            PoolInstruction::RemoveLiquidity { liquidity_amount: a2 },
        ) => {
            assert(p.subrange(1, 9) =~= spec_u64_to_le_bytes(a1));
            assert(q.subrange(1, 9) =~= spec_u64_to_le_bytes(a2));
            assert(spec_u64_from_le_bytes(spec_u64_to_le_bytes(a1)) == a1);
            assert(spec_u64_from_le_bytes(spec_u64_to_le_bytes(a2)) == a2);
        },
        (
            PoolInstruction::Swap { amount_in: a1, a_to_b: f1 },
            PoolInstruction::Swap { amount_in: a2, a_to_b: f2 },
        ) => {
            assert(p.subrange(1, 9) =~= spec_u64_to_le_bytes(a1));
            assert(q.subrange(1, 9) =~= spec_u64_to_le_bytes(a2));
            assert(spec_u64_from_le_bytes(spec_u64_to_le_bytes(a1)) == a1);
            assert(spec_u64_from_le_bytes(spec_u64_to_le_bytes(a2)) == a2);
            assert(p[9] == flag_byte(f1));
            assert(q[9] == flag_byte(f2));
        },
        _ => {},
    }
}

/// A request to the token ledger.
#[derive(Debug, Clone, Copy, PartialEq, Eq)]
pub enum TokenRequest {
    /// Move `amount` from `source` to `destination`, on `authority`'s word.
    Transfer { source: Address, destination: Address, authority: Address, amount: u64 },
    /// Create `amount` of `mint` in `destination`, on `authority`'s word.
    MintTo { mint: Address, destination: Address, authority: Address, amount: u64 },
    /// Destroy `amount` of `mint` held in `source`, on `authority`'s word.
    Burn { source: Address, mint: Address, authority: Address, amount: u64 },
}

/// What an admitted operation does: the requests to the token ledger, in the
/// order in which they are to be made, and the record to store once all of
/// them have succeeded.
#[derive(Debug, Clone, PartialEq, Eq)]
pub struct PoolUpdate {
    /// The requests, first to last.
    pub requests: Vec<TokenRequest>,
    /// The pool record after the operation.
    pub pool: LiquidityPool,
}

} // verus!
