//! The reasons for which an operation is refused.

use vstd::prelude::*;

verus! {

/// Why an operation on the pool was refused.
#[derive(Debug, Clone, Copy, PartialEq, Eq, Structural)]
pub enum LiquidityPoolError {
    /// An account is not writable, has the wrong owner, or is not the one the
    /// pool record names.
    InvalidAccount,
    /// The pool record's storage already holds data.
    AlreadyInitialized,
    /// The pool record's storage holds no readable record.
    NotInitialized,
    /// An amount is zero, rounds to zero, or the two assets are the same.
    InvalidAmount,
    /// Declared for callers; no operation of the pool returns it.
    InsufficientLiquidity,
    /// A checked operation left the range of its type, or divided by zero.
    ArithmeticOverflow,
    /// Declared for callers; no operation of the pool returns it.
    InvalidTokenPair,
    /// The user did not sign.
    Unauthorized,
}

impl LiquidityPoolError {
    /// The number under which the error is reported to the host: the
    /// variant's position in the declaration.
    pub open spec fn spec_code(self) -> u32 {
        match self {
            LiquidityPoolError::InvalidAccount => 0,
            LiquidityPoolError::AlreadyInitialized => 1,
            LiquidityPoolError::NotInitialized => 2,
            LiquidityPoolError::InvalidAmount => 3,
            LiquidityPoolError::InsufficientLiquidity => 4,
            LiquidityPoolError::ArithmeticOverflow => 5,
            LiquidityPoolError::InvalidTokenPair => 6,
            LiquidityPoolError::Unauthorized => 7,
        }
    }

    /// The number under which the error is reported to the host.
    pub fn code(&self) -> (c: u32)
        ensures
            c == self.spec_code(),
    {
        match self {
            LiquidityPoolError::InvalidAccount => 0,
            LiquidityPoolError::AlreadyInitialized => 1,
            LiquidityPoolError::NotInitialized => 2,
            LiquidityPoolError::InvalidAmount => 3,
            LiquidityPoolError::InsufficientLiquidity => 4,
            LiquidityPoolError::ArithmeticOverflow => 5,
            LiquidityPoolError::InvalidTokenPair => 6,
            LiquidityPoolError::Unauthorized => 7,
        }
    }
}

} // verus!
