use stable_swap::error::ProgramError;
use stable_swap::instruction::SwapInstruction;
use stable_swap::state::AdminSettings;

fn initialize_sample() -> SwapInstruction {
    SwapInstruction::Initialize {
        nonce: 5,
        n_coins: 2,
        amplification_coefficient: 100,
        fee_numerator: 10,
        admin_fee_numerator: 2,
        admin_settings: AdminSettings { swap_enabled: true, add_liquidity_enabled: false },
    }
}

#[test]
fn initialize_encodes_to_expected_bytes() {
    let packed = initialize_sample().pack();
    let expected: Vec<u8> = vec![
        0, 5, 2, 100, 0, 0, 0, 0, 0, 0, 0, 10, 0, 0, 0, 0, 0, 0, 0, 2, 0, 0, 0, 0, 0, 0, 0, 1, 0,
    ];
    assert_eq!(packed, expected);
}

#[test]
fn initialize_round_trips() {
    let c = initialize_sample();
    let packed = c.pack();
    assert_eq!(SwapInstruction::unpack(&packed), Ok(c));
}

#[test]
fn add_liquidity_encodes_to_expected_bytes() {
    let c = SwapInstruction::AddLiquidity { deposit_amounts: vec![1, 2, 3], min_mint_amount: 500 };
    let packed = c.pack();
    let expected: Vec<u8> = vec![
        1, 3, 0, 0, 0, 1, 0, 0, 0, 0, 0, 0, 0, 2, 0, 0, 0, 0, 0, 0, 0, 3, 0, 0, 0, 0, 0, 0, 0,
        244, 1, 0, 0, 0, 0, 0, 0,
    ];
    assert_eq!(packed, expected);
}

#[test]
fn add_liquidity_round_trips() {
    let c = SwapInstruction::AddLiquidity { deposit_amounts: vec![1, 2, 3], min_mint_amount: 500 };
    let packed = c.pack();
    assert_eq!(SwapInstruction::unpack(&packed), Ok(c));
}

#[test]
fn add_liquidity_empty_vector_round_trips() {
    let c = SwapInstruction::AddLiquidity { deposit_amounts: vec![], min_mint_amount: 7 };
    let packed = c.pack();
    assert_eq!(packed.len(), 1 + 4 + 8);
    assert_eq!(SwapInstruction::unpack(&packed), Ok(c));
}

#[test]
fn remove_liquidity_round_trips() {
    let c = SwapInstruction::RemoveLiquidity {
        unmint_amount: u64::MAX,
        minimum_amounts: vec![9, 8, 7, 6],
    };
    let packed = c.pack();
    assert_eq!(packed.len(), 1 + 8 + 4 + 4 * 8);
    assert_eq!(SwapInstruction::unpack(&packed), Ok(c));
}

#[test]
fn remove_liquidity_one_token_round_trips() {
    let c = SwapInstruction::RemoveLiquidityOneToken {
        unmint_amount: 123_456_789,
        minimum_out_amount: 42,
    };
    let packed = c.pack();
    assert_eq!(packed.len(), 17);
    assert_eq!(SwapInstruction::unpack(&packed), Ok(c));
}

#[test]
fn exchange_round_trips() {
    let c = SwapInstruction::Exchange { in_amount: 1_000_000, minimum_out_amount: 999_999 };
    let packed = c.pack();
    assert_eq!(packed.len(), 17);
    assert_eq!(SwapInstruction::unpack(&packed), Ok(c));
}

#[test]
fn get_virtual_price_decodes_from_single_byte() {
    assert_eq!(SwapInstruction::unpack(&[5]), Ok(SwapInstruction::GetVirtualPrice {}));
}

#[test]
fn get_virtual_price_round_trips() {
    let c = SwapInstruction::GetVirtualPrice {};
    let packed = c.pack();
    assert_eq!(packed, vec![5]);
    assert_eq!(SwapInstruction::unpack(&packed), Ok(c));
}

#[test]
fn empty_buffer_is_rejected() {
    assert_eq!(SwapInstruction::unpack(&[]), Err(ProgramError::Custom(0)));
}

#[test]
fn unknown_tag_is_rejected() {
    assert_eq!(SwapInstruction::unpack(&[6]), Err(ProgramError::InvalidAccountData));
    assert_eq!(SwapInstruction::unpack(&[200, 1, 2, 3]), Err(ProgramError::InvalidAccountData));
}

#[test]
fn every_strict_prefix_of_every_variant_is_rejected() {
    let commands = vec![
        initialize_sample(),
        SwapInstruction::AddLiquidity { deposit_amounts: vec![1, 2], min_mint_amount: 3 },
        SwapInstruction::RemoveLiquidity { unmint_amount: 4, minimum_amounts: vec![5] },
        SwapInstruction::RemoveLiquidityOneToken { unmint_amount: 1, minimum_out_amount: 2 },
        SwapInstruction::Exchange { in_amount: 1, minimum_out_amount: 2 },
        SwapInstruction::GetVirtualPrice {},
    ];
    for c in commands {
        let packed = c.pack();
        for k in 0..packed.len() {
            assert_eq!(
                SwapInstruction::unpack(&packed[..k]),
                Err(ProgramError::Custom(0)),
                "prefix of length {} was not rejected",
                k
            );
        }
    }
}

#[test]
fn trailing_bytes_are_ignored() {
    let c = SwapInstruction::Exchange { in_amount: 3, minimum_out_amount: 4 };
    let mut packed = c.pack();
    packed.push(0xaa);
    packed.push(0xbb);
    assert_eq!(SwapInstruction::unpack(&packed), Ok(c));
}

#[test]
fn invalid_boolean_byte_in_initialize_is_rejected() {
    let mut packed = initialize_sample().pack();
    packed[27] = 2;
    assert_eq!(SwapInstruction::unpack(&packed), Err(ProgramError::InvalidAccountData));
    let mut packed = initialize_sample().pack();
    packed[28] = 255;
    assert_eq!(SwapInstruction::unpack(&packed), Err(ProgramError::InvalidAccountData));
}
