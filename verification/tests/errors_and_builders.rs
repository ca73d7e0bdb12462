use stable_swap::check_program_account;
use stable_swap::error::{ProgramError, SwapError};
use stable_swap::id;
use stable_swap::instruction::{
    add_liquidity, exchange, initialize, remove_liquidity, remove_liquidity_one_token,
    SwapInstruction,
};
use stable_swap::state::AdminSettings;
use stable_swap::utils::u8_to_bool;
use stable_swap::Pubkey;

#[test]
fn error_codes_are_dense_and_stable() {
    assert_eq!(SwapError::InvalidInstruction.code(), 0);
    assert_eq!(SwapError::ExpectedAccount.code(), 4);
    assert_eq!(SwapError::InvalidCalculation.code(), 10);
    assert_eq!(SwapError::SwapAlreadyInitialized.code(), 14);
    assert_eq!(SwapError::RepeatedMint.code(), 19);
    assert_eq!(SwapError::SwapDisabled.code(), 24);
    assert_eq!(SwapError::AddLiquidityDisabled.code(), 25);
    assert_eq!(SwapError::PoolTokenDecimalsInvalid.code(), 29);
}

#[test]
fn error_codes_round_trip() {
    for code in 0..30u32 {
        let kind = SwapError::from_code(code).expect("code inside the catalogue");
        assert_eq!(kind.code(), code);
    }
    assert_eq!(SwapError::from_code(30), None);
    assert_eq!(SwapError::from_code(u32::MAX), None);
}

#[test]
fn swap_error_converts_to_its_custom_code() {
    assert_eq!(ProgramError::from(SwapError::InvalidInstruction), ProgramError::Custom(0));
    assert_eq!(ProgramError::from(SwapError::ExceededSlippage), ProgramError::Custom(11));
    assert_eq!(ProgramError::from(SwapError::NoAdminTokens), ProgramError::Custom(26));
}

#[test]
fn error_messages() {
    assert_eq!(SwapError::InvalidInstruction.message(), "Invalid Instruction");
    assert_eq!(SwapError::NoAdminTokens.message(), "Admin Only");
    assert_eq!(SwapError::ExceededSlippage.message(), "ExceededSlippage");
}

#[test]
fn byte_to_bool_accepts_only_zero_and_one() {
    assert_eq!(u8_to_bool(0), Ok(false));
    assert_eq!(u8_to_bool(1), Ok(true));
    for b in 2..=255u8 {
        assert_eq!(u8_to_bool(b), Err(ProgramError::InvalidAccountData));
    }
}

#[test]
fn program_account_check() {
    assert_eq!(check_program_account(&id()), Ok(()));
    let other = Pubkey::new_from_array([3; 32]);
    assert_eq!(check_program_account(&other), Err(ProgramError::IncorrectProgramId));
}

fn pk(seed: u8) -> Pubkey {
    Pubkey::new_from_array([seed; 32])
}

#[test]
fn initialize_builder_assembles_accounts_and_payload() {
    let admin_settings = AdminSettings { swap_enabled: true, add_liquidity_enabled: false };
    let ix = initialize(
        &id(),
        &pk(10),
        &pk(11),
        &vec![pk(20), pk(21)],
        &vec![pk(30), pk(31)],
        &pk(40),
        &pk(41),
        5,
        2,
        100,
        10,
        2,
        admin_settings,
    )
    .expect("correct program identity");
    assert_eq!(ix.program_id, id());
    let metas = &ix.accounts;
    assert_eq!(metas.len(), 8);
    assert_eq!((metas[0].pubkey, metas[0].is_signer, metas[0].is_writable), (pk(10), false, true));
    assert_eq!((metas[1].pubkey, metas[1].is_signer, metas[1].is_writable), (pk(11), false, false));
    assert_eq!((metas[2].pubkey, metas[2].is_writable), (pk(20), false));
    assert_eq!((metas[3].pubkey, metas[3].is_writable), (pk(21), false));
    assert_eq!((metas[4].pubkey, metas[4].is_writable), (pk(30), false));
    assert_eq!((metas[5].pubkey, metas[5].is_writable), (pk(31), false));
    assert_eq!((metas[6].pubkey, metas[6].is_writable), (pk(40), false));
    assert_eq!((metas[7].pubkey, metas[7].is_writable), (pk(41), false));
    let expected_data = SwapInstruction::Initialize {
        nonce: 5,
        n_coins: 2,
        amplification_coefficient: 100,
        fee_numerator: 10,
        admin_fee_numerator: 2,
        admin_settings,
    }
    .pack();
    assert_eq!(ix.data, expected_data);
}

#[test]
fn initialize_builder_rejects_wrong_program_identity() {
    let r = initialize(
        &pk(99),
        &pk(10),
        &pk(11),
        &vec![],
        &vec![],
        &pk(40),
        &pk(41),
        1,
        0,
        1,
        1,
        1,
        AdminSettings { swap_enabled: true, add_liquidity_enabled: true },
    );
    assert_eq!(r.err(), Some(ProgramError::IncorrectProgramId));
}

#[test]
fn add_liquidity_builder_assembles_accounts_and_payload() {
    let ix = add_liquidity(
        &id(),
        &pk(1),
        &pk(2),
        &pk(3),
        &pk(4),
        &vec![pk(20), pk(21)],
        &pk(5),
        &vec![pk(30), pk(31)],
        &pk(6),
        vec![100, 200],
        7,
    )
    .expect("correct program identity");
    let metas = &ix.accounts;
    assert_eq!(metas.len(), 10);
    for k in 0..4 {
        assert!(!metas[k].is_writable);
    }
    assert!(metas[3].is_signer);
    for k in 4..10 {
        assert!(metas[k].is_writable);
        assert!(!metas[k].is_signer);
    }
    assert_eq!(metas[4].pubkey, pk(20));
    assert_eq!(metas[6].pubkey, pk(5));
    assert_eq!(metas[9].pubkey, pk(6));
    let expected_data =
        SwapInstruction::AddLiquidity { deposit_amounts: vec![100, 200], min_mint_amount: 7 }
            .pack();
    assert_eq!(ix.data, expected_data);
}

#[test]
fn remove_liquidity_builder_assembles_payload() {
    let ix = remove_liquidity(
        &id(),
        &pk(1),
        &pk(2),
        &pk(3),
        &pk(4),
        &vec![pk(20)],
        &pk(5),
        &vec![pk(30)],
        &pk(6),
        1000,
        vec![1, 2],
    )
    .expect("correct program identity");
    assert_eq!(ix.accounts.len(), 8);
    let expected_data =
        SwapInstruction::RemoveLiquidity { unmint_amount: 1000, minimum_amounts: vec![1, 2] }
            .pack();
    assert_eq!(ix.data, expected_data);
}

#[test]
fn remove_liquidity_one_token_builder_assembles_payload() {
    let ix = remove_liquidity_one_token(
        &id(),
        &pk(1),
        &pk(2),
        &pk(3),
        &pk(4),
        &vec![pk(20), pk(21), pk(22)],
        &pk(5),
        &pk(6),
        &pk(7),
        500,
        400,
    )
    .expect("correct program identity");
    assert_eq!(ix.accounts.len(), 10);
    assert_eq!(ix.accounts[9].pubkey, pk(7));
    let expected_data = SwapInstruction::RemoveLiquidityOneToken {
        unmint_amount: 500,
        minimum_out_amount: 400,
    }
    .pack();
    assert_eq!(ix.data, expected_data);
}

#[test]
fn exchange_builder_assembles_payload() {
    let ix = exchange(
        &id(),
        &pk(1),
        &pk(2),
        &pk(3),
        &pk(4),
        &vec![pk(20), pk(21)],
        &pk(5),
        &pk(6),
        123,
        120,
    )
    .expect("correct program identity");
    assert_eq!(ix.accounts.len(), 8);
    assert_eq!(ix.accounts[6].pubkey, pk(5));
    assert_eq!(ix.accounts[7].pubkey, pk(6));
    let expected_data =
        SwapInstruction::Exchange { in_amount: 123, minimum_out_amount: 120 }.pack();
    assert_eq!(ix.data, expected_data);
}

#[test]
fn every_builder_rejects_wrong_program_identity() {
    let wrong = pk(255);
    assert!(add_liquidity(
        &wrong,
        &pk(1),
        &pk(2),
        &pk(3),
        &pk(4),
        &vec![],
        &pk(5),
        &vec![],
        &pk(6),
        vec![],
        0,
    )
    .is_err());
    assert!(remove_liquidity(
        &wrong,
        &pk(1),
        &pk(2),
        &pk(3),
        &pk(4),
        &vec![],
        &pk(5),
        &vec![],
        &pk(6),
        0,
        vec![],
    )
    .is_err());
    assert!(remove_liquidity_one_token(
        &wrong,
        &pk(1),
        &pk(2),
        &pk(3),
        &pk(4),
        &vec![],
        &pk(5),
        &pk(6),
        &pk(7),
        0,
        0,
    )
    .is_err());
    assert!(
        exchange(&wrong, &pk(1), &pk(2), &pk(3), &pk(4), &vec![], &pk(5), &pk(6), 0, 0).is_err()
    );
}
