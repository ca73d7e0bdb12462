use stable_swap::error::ProgramError;
use stable_swap::state::{AdminSettings, SwapV2, SwapVersion};
use stable_swap::Pubkey;

fn sample_record(n_coins: usize) -> SwapV2 {
    let mut multipliers = Vec::new();
    let mut addresses = Vec::new();
    for i in 0..n_coins {
        multipliers.push(1000 + i as u64);
        addresses.push(Pubkey::new_from_array([10 + i as u8; 32]));
    }
    SwapV2 {
        is_initialized: true,
        nonce: 7,
        amplification_coefficient: 85,
        fee_numerator: 4_000_000,
        admin_fee_numerator: 500,
        precision_factor: 1_000_000,
        precision_multipliers: multipliers,
        token_account_addresses: addresses,
        pool_mint_address: Pubkey::new_from_array([1; 32]),
        admin_token_mint_address: Pubkey::new_from_array([2; 32]),
        admin_settings: AdminSettings { swap_enabled: true, add_liquidity_enabled: true },
    }
}

#[test]
fn record_round_trips_for_every_coin_count() {
    for n_coins in 0..=4 {
        let record = sample_record(n_coins);
        let mut buffer = vec![0u8; SwapVersion::LATEST_LEN];
        let packed = SwapVersion::pack(SwapVersion::SwapV2(record.clone()), &mut buffer);
        assert_eq!(packed, Ok(()));
        assert_eq!(buffer.len(), SwapVersion::LATEST_LEN);
        assert_eq!(SwapVersion::unpack(&buffer), Ok(SwapVersion::SwapV2(record)));
    }
}

#[test]
fn encoded_length_is_fixed() {
    assert_eq!(SwapV2::LEN, 264);
    assert_eq!(SwapVersion::LATEST_LEN, 265);
}

#[test]
fn version_byte_three_is_rejected_as_unknown_version() {
    let mut buffer = vec![0u8; SwapVersion::LATEST_LEN];
    let record = sample_record(2);
    SwapVersion::pack(SwapVersion::SwapV2(record), &mut buffer).unwrap();
    buffer[0] = 3;
    assert_eq!(SwapVersion::unpack(&buffer), Err(ProgramError::UninitializedAccount));
}

#[test]
fn empty_record_buffer_is_rejected() {
    assert_eq!(SwapVersion::unpack(&[]), Err(ProgramError::InvalidAccountData));
}

#[test]
fn wrong_length_buffer_is_rejected() {
    let buffer = vec![2u8; 100];
    assert_eq!(SwapVersion::unpack(&buffer), Err(ProgramError::InvalidAccountData));
    let mut long = vec![0u8; SwapVersion::LATEST_LEN + 1];
    long[0] = 2;
    assert_eq!(SwapVersion::unpack(&long), Err(ProgramError::InvalidAccountData));
}

#[test]
fn invalid_initialized_byte_is_rejected() {
    let mut buffer = vec![0u8; SwapVersion::LATEST_LEN];
    SwapVersion::pack(SwapVersion::SwapV2(sample_record(2)), &mut buffer).unwrap();
    buffer[1] = 7;
    assert_eq!(SwapVersion::unpack(&buffer), Err(ProgramError::InvalidAccountData));
}

#[test]
fn invalid_admin_flag_bytes_are_rejected() {
    let mut buffer = vec![0u8; SwapVersion::LATEST_LEN];
    SwapVersion::pack(SwapVersion::SwapV2(sample_record(2)), &mut buffer).unwrap();
    buffer[263] = 2;
    assert_eq!(SwapVersion::unpack(&buffer), Err(ProgramError::InvalidAccountData));
    let mut buffer = vec![0u8; SwapVersion::LATEST_LEN];
    SwapVersion::pack(SwapVersion::SwapV2(sample_record(2)), &mut buffer).unwrap();
    buffer[264] = 9;
    assert_eq!(SwapVersion::unpack(&buffer), Err(ProgramError::InvalidAccountData));
}

#[test]
fn coin_count_above_maximum_is_rejected() {
    let mut buffer = vec![0u8; SwapVersion::LATEST_LEN];
    SwapVersion::pack(SwapVersion::SwapV2(sample_record(4)), &mut buffer).unwrap();
    buffer[27] = 5;
    assert_eq!(SwapVersion::unpack(&buffer), Err(ProgramError::InvalidAccountData));
}

#[test]
fn uninitialized_record_is_reported_as_uninitialized_account() {
    let mut record = sample_record(2);
    record.is_initialized = false;
    let mut buffer = vec![0u8; SwapVersion::LATEST_LEN];
    SwapVersion::pack(SwapVersion::SwapV2(record), &mut buffer).unwrap();
    assert_eq!(SwapVersion::unpack(&buffer), Err(ProgramError::UninitializedAccount));
}

#[test]
fn is_initialized_probe() {
    let mut buffer = vec![0u8; SwapVersion::LATEST_LEN];
    SwapVersion::pack(SwapVersion::SwapV2(sample_record(3)), &mut buffer).unwrap();
    assert!(SwapVersion::is_initialized(&buffer));

    let mut record = sample_record(3);
    record.is_initialized = false;
    let mut buffer = vec![0u8; SwapVersion::LATEST_LEN];
    SwapVersion::pack(SwapVersion::SwapV2(record), &mut buffer).unwrap();
    assert!(!SwapVersion::is_initialized(&buffer));

    assert!(!SwapVersion::is_initialized(&[]));
    assert!(!SwapVersion::is_initialized(&[9, 9, 9]));
}

#[test]
fn re_encoding_with_fewer_coins_leaves_no_stale_slots() {
    let mut buffer = vec![0u8; SwapVersion::LATEST_LEN];
    SwapVersion::pack(SwapVersion::SwapV2(sample_record(4)), &mut buffer).unwrap();
    let small = sample_record(2);
    SwapVersion::pack(SwapVersion::SwapV2(small.clone()), &mut buffer).unwrap();
    assert_eq!(SwapVersion::unpack(&buffer), Ok(SwapVersion::SwapV2(small)));
    for j in 1 + 38 + 2 * 8..1 + 70 {
        assert_eq!(buffer[j], 0, "stale multiplier byte at {}", j);
    }
    for j in 1 + 70 + 2 * 32..1 + 198 {
        assert_eq!(buffer[j], 0, "stale address byte at {}", j);
    }
}

#[test]
fn unused_slots_do_not_affect_decoding() {
    let record = sample_record(2);
    let mut buffer = vec![0u8; SwapVersion::LATEST_LEN];
    SwapVersion::pack(SwapVersion::SwapV2(record.clone()), &mut buffer).unwrap();
    for j in 1 + 38 + 2 * 8..1 + 70 {
        buffer[j] = 0xee;
    }
    for j in 1 + 70 + 2 * 32..1 + 198 {
        buffer[j] = 0xdd;
    }
    assert_eq!(SwapVersion::unpack(&buffer), Ok(SwapVersion::SwapV2(record)));
}
