use liquidity_pool::account::Address;
use liquidity_pool::error::LiquidityPoolError;
use liquidity_pool::instruction::PoolInstruction;
use liquidity_pool::math::{
    amount_after_fee, compute_swap_output, first_deposit_shares, redeem_amount,
    shares_for_deposit,
};
use liquidity_pool::state::LiquidityPool;

fn address(tag: u8) -> Address {
    Address::new([tag; 32])
}

fn sample_pool(supply: u64, reserve_a: u64, reserve_b: u64) -> LiquidityPool {
    LiquidityPool {
        authority: address(1),
        token_a_mint: address(2),
        token_b_mint: address(3),
        token_a_vault: address(4),
        token_b_vault: address(5),
        liquidity_mint: address(6),
        liquidity_supply: supply,
        token_a_reserve: reserve_a,
        token_b_reserve: reserve_b,
    }
}

#[test]
fn first_deposit_mints_square_root_of_product() {
    assert_eq!(first_deposit_shares(100, 400), 200);
    assert_eq!(shares_for_deposit(0, 0, 0, 100, 400), Ok(200));
}

#[test]
fn first_deposit_rounds_down() {
    assert_eq!(first_deposit_shares(2, 3), 2);
    assert_eq!(first_deposit_shares(1, 1), 1);
    assert_eq!(first_deposit_shares(1, 3), 1);
    assert_eq!(first_deposit_shares(0, 7), 0);
    assert_eq!(first_deposit_shares(10, 10), 10);
    assert_eq!(first_deposit_shares(99, 101), 99);
}

#[test]
fn first_deposit_of_largest_amounts_fits() {
    assert_eq!(first_deposit_shares(u64::MAX, u64::MAX), u64::MAX);
    assert_eq!(first_deposit_shares(u64::MAX, 1), 4294967295);
}

#[test]
fn later_deposit_mints_smaller_contribution() {
    assert_eq!(shares_for_deposit(200, 100, 400, 50, 100), Ok(50));
    assert_eq!(shares_for_deposit(200, 100, 400, 10, 400), Ok(20));
    assert_eq!(shares_for_deposit(200, 100, 400, 50, 200), Ok(100));
}

#[test]
fn later_deposit_rounds_each_contribution_down() {
    assert_eq!(shares_for_deposit(10, 3, 3, 1, 1), Ok(3));
    assert_eq!(shares_for_deposit(7, 10, 10, 9, 9), Ok(6));
    assert_eq!(shares_for_deposit(1, 10, 10, 9, 9), Ok(0));
}

#[test]
fn later_deposit_without_reserve_is_overflow() {
    assert_eq!(
        shares_for_deposit(5, 0, 10, 1, 1),
        Err(LiquidityPoolError::ArithmeticOverflow)
    );
    assert_eq!(
        shares_for_deposit(5, 10, 0, 1, 1),
        Err(LiquidityPoolError::ArithmeticOverflow)
    );
}

#[test]
fn later_deposit_beyond_64_bits_is_overflow() {
    assert_eq!(
        shares_for_deposit(u64::MAX, 1, 1, 2, 2),
        Err(LiquidityPoolError::ArithmeticOverflow)
    );
    assert_eq!(shares_for_deposit(u64::MAX, 1, 1, 1, 1), Ok(u64::MAX));
}

#[test]
fn redemption_is_proportional_and_rounds_down() {
    assert_eq!(redeem_amount(50, 100, 200), 25);
    assert_eq!(redeem_amount(1, 100, 3), 33);
    assert_eq!(redeem_amount(1, 1, 2), 0);
    assert_eq!(redeem_amount(u64::MAX, u64::MAX, u64::MAX), u64::MAX);
}

#[test]
fn redeeming_every_share_pays_whole_reserve() {
    assert_eq!(redeem_amount(200, 100, 200), 100);
    assert_eq!(redeem_amount(200, 400, 200), 400);
    assert_eq!(redeem_amount(7, 0, 7), 0);
}

#[test]
fn fee_is_thirty_parts_in_ten_thousand() {
    assert_eq!(amount_after_fee(100), Ok(99));
    assert_eq!(amount_after_fee(10000), Ok(9970));
    assert_eq!(amount_after_fee(1), Ok(0));
    assert_eq!(amount_after_fee(0), Ok(0));
    assert_eq!(amount_after_fee(1000), Ok(997));
}

#[test]
fn fee_product_beyond_64_bits_is_overflow() {
    assert_eq!(
        amount_after_fee(u64::MAX),
        Err(LiquidityPoolError::ArithmeticOverflow)
    );
    assert_eq!(amount_after_fee(u64::MAX / 9970), Ok(1844674407370954));
    assert_eq!(
        amount_after_fee(u64::MAX / 9970 + 1),
        Err(LiquidityPoolError::ArithmeticOverflow)
    );
}

#[test]
fn swap_output_keeps_product() {
    assert_eq!(compute_swap_output(1000, 1000, 100), Ok(90));
    let kept: u128 = 1000 - 90;
    assert!((1000 + 99) * kept >= 1000 * 1000);
}

#[test]
fn swap_output_on_other_reserves() {
    assert_eq!(compute_swap_output(1000, 1000, 1), Ok(0));
    assert_eq!(compute_swap_output(1, 1000, 2), Ok(500));
    assert_eq!(compute_swap_output(500, 2000, 1000), Ok(1331));
    assert_eq!(compute_swap_output(0, 1000, 100), Ok(1000));
    assert_eq!(compute_swap_output(1000, 0, 100), Ok(0));
}

#[test]
fn swap_output_product_never_drops() {
    let reserves: [u64; 5] = [1, 7, 1000, 123456789, u64::MAX / 2];
    let inputs: [u64; 5] = [2, 3, 100, 99999, 1844674407370955];
    for r_in in reserves {
        for r_out in reserves {
            for amount in inputs {
                let out = compute_swap_output(r_in, r_out, amount).unwrap();
                let net = amount_after_fee(amount).unwrap();
                assert!(out <= r_out);
                let before = (r_in as u128) * (r_out as u128);
                let after = (r_in as u128 + net as u128) * ((r_out - out) as u128);
                assert!(after >= before);
            }
        }
    }
}

#[test]
fn swap_with_nothing_on_input_side_is_overflow() {
    assert_eq!(
        compute_swap_output(0, 1000, 1),
        Err(LiquidityPoolError::ArithmeticOverflow)
    );
    assert_eq!(
        compute_swap_output(0, 1000, 0),
        Err(LiquidityPoolError::ArithmeticOverflow)
    );
    assert_eq!(
        compute_swap_output(10, 10, u64::MAX),
        Err(LiquidityPoolError::ArithmeticOverflow)
    );
}

#[test]
fn error_codes_follow_declaration_order() {
    assert_eq!(LiquidityPoolError::InvalidAccount.code(), 0);
    assert_eq!(LiquidityPoolError::AlreadyInitialized.code(), 1);
    assert_eq!(LiquidityPoolError::NotInitialized.code(), 2);
    assert_eq!(LiquidityPoolError::InvalidAmount.code(), 3);
    assert_eq!(LiquidityPoolError::InsufficientLiquidity.code(), 4);
    assert_eq!(LiquidityPoolError::ArithmeticOverflow.code(), 5);
    assert_eq!(LiquidityPoolError::InvalidTokenPair.code(), 6);
    assert_eq!(LiquidityPoolError::Unauthorized.code(), 7);
}

#[test]
fn address_comparison_is_bytewise() {
    let mut bytes = [9u8; 32];
    assert!(address(9).same(&Address::new(bytes)));
    bytes[31] = 8;
    assert!(!address(9).same(&Address::new(bytes)));
}

#[test]
fn address_read_and_write() {
    let mut data: Vec<u8> = vec![0xaa];
    address(7).write(&mut data);
    data.push(0xbb);
    assert_eq!(data.len(), 34);
    assert_eq!(Address::read(&data, 1), address(7));
    assert_eq!(Address::read(&data, 0).bytes[0], 0xaa);
    assert_eq!(Address::read(&data, 2).bytes[31], 0xbb);
}

#[test]
fn pool_record_layout() {
    let pool = sample_pool(0x0102030405060708, 1000, u64::MAX);
    let bytes = pool.pack();
    assert_eq!(bytes.len(), 216);
    for field in 0..6 {
        for i in 0..32 {
            assert_eq!(bytes[field * 32 + i], field as u8 + 1);
        }
    }
    assert_eq!(&bytes[192..200], &[8, 7, 6, 5, 4, 3, 2, 1]);
    assert_eq!(&bytes[200..208], &[0xe8, 3, 0, 0, 0, 0, 0, 0]);
    assert_eq!(&bytes[208..216], &[0xff; 8]);
}

#[test]
fn pool_record_reads_back() {
    let pool = sample_pool(77, 1000, 2000);
    assert_eq!(LiquidityPool::unpack(&pool.pack()), Some(pool));
    let empty = sample_pool(0, 0, 0);
    assert_eq!(LiquidityPool::unpack(&empty.pack()), Some(empty));
}

#[test]
fn pool_record_matches_borsh_numbers() {
    let pool = sample_pool(77, 1000, 2000);
    let bytes = pool.pack();
    assert_eq!(&bytes[192..200], borsh::to_vec(&77u64).unwrap().as_slice());
    assert_eq!(&bytes[200..208], borsh::to_vec(&1000u64).unwrap().as_slice());
    assert_eq!(&bytes[0..32], borsh::to_vec(&[1u8; 32]).unwrap().as_slice());
}

#[test]
fn pool_record_of_wrong_length_is_none() {
    let mut bytes = sample_pool(1, 2, 3).pack();
    assert_eq!(LiquidityPool::unpack(&[]), None);
    bytes.push(0);
    assert_eq!(LiquidityPool::unpack(&bytes), None);
    bytes.truncate(215);
    assert_eq!(LiquidityPool::unpack(&bytes), None);
}

#[test]
fn deposit_adds_to_reserves_and_supply() {
    let pool = sample_pool(10, 20, 30);
    assert_eq!(pool.deposit(1, 2, 3), Ok(sample_pool(13, 21, 32)));
}

#[test]
fn deposit_at_largest_value_is_overflow() {
    let overflow = Err(LiquidityPoolError::ArithmeticOverflow);
    assert_eq!(sample_pool(10, u64::MAX, 30).deposit(1, 1, 1), overflow);
    assert_eq!(sample_pool(10, 20, u64::MAX).deposit(1, 1, 1), overflow);
    assert_eq!(sample_pool(u64::MAX, 20, 30).deposit(1, 1, 1), overflow);
    assert_eq!(
        sample_pool(10, u64::MAX - 1, 30).deposit(1, 1, 1),
        Ok(sample_pool(11, u64::MAX, 31))
    );
}

#[test]
fn withdraw_takes_from_reserves_and_supply() {
    let pool = sample_pool(10, 20, 30);
    assert_eq!(pool.withdraw(10, 20, 30), Ok(sample_pool(0, 0, 0)));
    assert_eq!(pool.withdraw(1, 2, 3), Ok(sample_pool(9, 18, 27)));
    assert_eq!(
        pool.withdraw(11, 2, 3),
        Err(LiquidityPoolError::ArithmeticOverflow)
    );
    assert_eq!(
        pool.withdraw(1, 21, 3),
        Err(LiquidityPoolError::ArithmeticOverflow)
    );
}

#[test]
fn trade_moves_reserves_by_direction() {
    let pool = sample_pool(10, 1000, 2000);
    assert_eq!(pool.trade(true, 100, 50), Ok(sample_pool(10, 1100, 1950)));
    assert_eq!(pool.trade(false, 100, 50), Ok(sample_pool(10, 950, 2100)));
    assert_eq!(
        pool.trade(true, 1, 2001),
        Err(LiquidityPoolError::ArithmeticOverflow)
    );
    assert_eq!(
        sample_pool(10, u64::MAX, 2000).trade(true, 1, 1),
        Err(LiquidityPoolError::ArithmeticOverflow)
    );
    assert_eq!(
        sample_pool(10, 1000, u64::MAX).trade(false, 1, 1),
        Err(LiquidityPoolError::ArithmeticOverflow)
    );
}

#[test]
fn instruction_encoding() {
    assert_eq!(PoolInstruction::InitializePool.pack(), vec![0]);
    assert_eq!(
        PoolInstruction::AddLiquidity { amount_a: 1, amount_b: 258 }.pack(),
        vec![1, 1, 0, 0, 0, 0, 0, 0, 0, 2, 1, 0, 0, 0, 0, 0, 0]
    );
    assert_eq!(
        PoolInstruction::RemoveLiquidity { liquidity_amount: u64::MAX }.pack(),
        vec![2, 255, 255, 255, 255, 255, 255, 255, 255]
    );
    assert_eq!(
        PoolInstruction::Swap { amount_in: 100, a_to_b: true }.pack(),
        vec![3, 100, 0, 0, 0, 0, 0, 0, 0, 1]
    );
    assert_eq!(
        PoolInstruction::Swap { amount_in: 100, a_to_b: false }.pack(),
        vec![3, 100, 0, 0, 0, 0, 0, 0, 0, 0]
    );
}

#[test]
fn instruction_decoding() {
    assert_eq!(PoolInstruction::unpack(&[0]), Some(PoolInstruction::InitializePool));
    assert_eq!(
        PoolInstruction::unpack(&[1, 1, 0, 0, 0, 0, 0, 0, 0, 2, 1, 0, 0, 0, 0, 0, 0]),
        Some(PoolInstruction::AddLiquidity { amount_a: 1, amount_b: 258 })
    );
    assert_eq!(
        PoolInstruction::unpack(&[2, 5, 0, 0, 0, 0, 0, 0, 0]),
        Some(PoolInstruction::RemoveLiquidity { liquidity_amount: 5 })
    );
    assert_eq!(
        PoolInstruction::unpack(&[3, 100, 0, 0, 0, 0, 0, 0, 0, 1]),
        Some(PoolInstruction::Swap { amount_in: 100, a_to_b: true })
    );
    assert_eq!(
        PoolInstruction::unpack(&[3, 100, 0, 0, 0, 0, 0, 0, 0, 0]),
        Some(PoolInstruction::Swap { amount_in: 100, a_to_b: false })
    );
}

#[test]
fn instruction_decoding_refuses_malformed_bytes() {
    assert_eq!(PoolInstruction::unpack(&[]), None);
    assert_eq!(PoolInstruction::unpack(&[4]), None);
    assert_eq!(PoolInstruction::unpack(&[0, 0]), None);
    assert_eq!(PoolInstruction::unpack(&[1, 1, 0, 0, 0, 0, 0, 0, 0]), None);
    assert_eq!(PoolInstruction::unpack(&[2, 5, 0, 0, 0, 0, 0, 0]), None);
    assert_eq!(PoolInstruction::unpack(&[2, 5, 0, 0, 0, 0, 0, 0, 0, 0]), None);
    assert_eq!(PoolInstruction::unpack(&[3, 100, 0, 0, 0, 0, 0, 0, 0, 2]), None);
    assert_eq!(PoolInstruction::unpack(&[3, 100, 0, 0, 0, 0, 0, 0, 0]), None);
}

#[test]
fn instruction_round_trip() {
    let all = [
        PoolInstruction::InitializePool,
        PoolInstruction::AddLiquidity { amount_a: 7, amount_b: u64::MAX },
        PoolInstruction::RemoveLiquidity { liquidity_amount: 0 },
        PoolInstruction::Swap { amount_in: 12345678901234, a_to_b: true },
        PoolInstruction::Swap { amount_in: 1, a_to_b: false },
    ];
    for instruction in all {
        assert_eq!(PoolInstruction::unpack(&instruction.pack()), Some(instruction));
    }
}

#[test]
fn instruction_encoding_matches_borsh_fields() {
    let mut expected: Vec<u8> = vec![3];
    expected.extend(borsh::to_vec(&987654321u64).unwrap());
    expected.extend(borsh::to_vec(&true).unwrap());
    assert_eq!(
        PoolInstruction::Swap { amount_in: 987654321, a_to_b: true }.pack(),
        expected
    );
    assert_eq!(
        PoolInstruction::unpack(&expected),
        Some(PoolInstruction::Swap { amount_in: 987654321, a_to_b: true })
    );
}

#[test]
fn pool_record_is_the_borsh_form_of_its_fields() {
    let pool = sample_pool(77, 1000, u64::MAX - 5);
    let fields = (
        [1u8; 32],
        [2u8; 32],
        [3u8; 32],
        [4u8; 32],
        [5u8; 32],
        [6u8; 32],
        77u64,
        1000u64,
        u64::MAX - 5,
    );
    assert_eq!(pool.pack(), borsh::to_vec(&fields).unwrap());
    let read: ([u8; 32], [u8; 32], [u8; 32], [u8; 32], [u8; 32], [u8; 32], u64, u64, u64) =
        borsh::from_slice(&pool.pack()).unwrap();
    assert_eq!(read, fields);
}

#[test]
fn instruction_is_the_borsh_form_of_tag_and_fields() {
    assert_eq!(
        PoolInstruction::AddLiquidity { amount_a: 5, amount_b: 1 << 40 }.pack(),
        borsh::to_vec(&(1u8, 5u64, 1u64 << 40)).unwrap()
    );
    assert_eq!(
        PoolInstruction::RemoveLiquidity { liquidity_amount: 9 }.pack(),
        borsh::to_vec(&(2u8, 9u64)).unwrap()
    );
    assert_eq!(
        PoolInstruction::Swap { amount_in: 3, a_to_b: false }.pack(),
        borsh::to_vec(&(3u8, 3u64, false)).unwrap()
    );
    assert_eq!(PoolInstruction::InitializePool.pack(), borsh::to_vec(&0u8).unwrap());
    let decoded: Result<(u8, u64, bool), _> =
        borsh::from_slice(&[3, 100, 0, 0, 0, 0, 0, 0, 0, 2]);
    assert!(decoded.is_err());
}
