use basket_algos::account_util::{init_pda_account_rent, next_account, next_token_program, AccountSnapshot, PdaInitStep};
use basket_algos::bytes::{read_le_u64, to_be_bytes_u64, to_le_bytes_u64};
use basket_algos::constants::ADMIN;
use basket_algos::errors::ErrorCode;
use basket_algos::fee_config::{handler, DAOFeeConfig, InfinixFeeConfig, SetInfinixFeeConfig};
use basket_algos::infinix_program::{
    distribute_fees_cpi, get_instruction_discriminator, get_next_index, DistributeFeesAccounts,
    DISTRIBUTE_FEES_FUNCTION_NAME,
};

fn account(key: u8, owner: u8, is_signer: bool, is_writable: bool, executable: bool, data_len: usize) -> AccountSnapshot {
    AccountSnapshot {
        key: [key; 32],
        owner: [owner; 32],
        is_signer,
        is_writable,
        executable,
        lamports: 1,
        data_len,
    }
}

#[test]
fn next_account_checks_in_order() {
    let accounts = vec![
        account(1, 9, true, true, false, 10),
        account(2, 8, false, true, false, 10),
        account(3, 8, false, false, false, 0),
    ];
    let mut cursor = 0usize;
    assert_eq!(next_account(&accounts, &mut cursor, true, true, &[9u8; 32]), Ok(0));
    assert_eq!(cursor, 1);
    assert_eq!(next_account(&accounts, &mut cursor, true, true, &[9u8; 32]), Err(ErrorCode::AccountNotSigner));
    assert_eq!(cursor, 2);
    // No data: the owner is not checked.
    assert_eq!(next_account(&accounts, &mut cursor, false, false, &[9u8; 32]), Ok(2));
    assert_eq!(next_account(&accounts, &mut cursor, false, false, &[9u8; 32]), Err(ErrorCode::MissingRemainingAccount));
    assert_eq!(cursor, 3);
    let mut c = 1usize;
    assert_eq!(next_account(&accounts, &mut c, false, false, &[8u8; 32]), Err(ErrorCode::AccountNotWritable));
    let mut c = 1usize;
    assert_eq!(next_account(&accounts, &mut c, false, true, &[9u8; 32]), Err(ErrorCode::InvalidAccountOwner));
}

#[test]
fn next_token_program_accepts_both_token_programs() {
    let token = anchor_spl::token::ID.to_bytes();
    let token_2022 = anchor_spl::token_2022::ID.to_bytes();
    let mut a = account(0, 0, false, false, true, 0);
    a.key = token;
    let mut b = account(0, 0, false, false, true, 0);
    b.key = token_2022;
    let mut c = account(0, 0, false, false, false, 0);
    c.key = token;
    let d = account(7, 0, false, false, true, 0);
    let accounts = vec![a, b, c, d];
    let mut cursor = 0usize;
    assert_eq!(next_token_program(&accounts, &mut cursor), Ok(0));
    assert_eq!(next_token_program(&accounts, &mut cursor), Ok(1));
    assert_eq!(next_token_program(&accounts, &mut cursor), Err(ErrorCode::AccountNotExecutable));
    assert_eq!(next_token_program(&accounts, &mut cursor), Err(ErrorCode::InvalidTokenProgram));
    assert_eq!(next_token_program(&accounts, &mut cursor), Err(ErrorCode::MissingRemainingAccount));
}

#[test]
fn pda_init_steps() {
    assert_eq!(init_pda_account_rent(0, 500, 41), vec![PdaInitStep::CreateAccount { lamports: 500, space: 41 }]);
    assert_eq!(
        init_pda_account_rent(200, 500, 41),
        vec![PdaInitStep::Transfer { lamports: 300 }, PdaInitStep::Allocate { space: 41 }, PdaInitStep::Assign]
    );
    assert_eq!(init_pda_account_rent(900, 500, 41), vec![PdaInitStep::Allocate { space: 41 }, PdaInitStep::Assign]);
}

#[test]
fn byte_helpers() {
    let data = [1u8, 2, 3, 4, 5, 6, 7, 8, 9];
    assert_eq!(read_le_u64(&data, 1), u64::from_le_bytes([2, 3, 4, 5, 6, 7, 8, 9]));
    assert_eq!(to_be_bytes_u64(0x0102_0304_0506_0708), [1, 2, 3, 4, 5, 6, 7, 8]);
    assert_eq!(to_le_bytes_u64(0x0102_0304_0506_0708), [8, 7, 6, 5, 4, 3, 2, 1]);
}

#[test]
fn discriminator_is_sha256_prefix() {
    assert_eq!(get_instruction_discriminator(DISTRIBUTE_FEES_FUNCTION_NAME), [120, 56, 27, 7, 53, 176, 113, 186]);
    assert_ne!(get_instruction_discriminator("distribute_fee"), [120, 56, 27, 7, 53, 176, 113, 186]);
}

#[test]
fn next_index_reads_counter() {
    let mut data = vec![0u8; 24];
    data[16] = 5;
    assert_eq!(get_next_index(&data), Ok(6));
    assert_eq!(get_next_index(&data[..23]), Err(ErrorCode::InvalidFeeRecipient));
}

fn keys() -> DistributeFeesAccounts {
    DistributeFeesAccounts {
        infinix_program: [1; 32],
        rent: [2; 32],
        system_program: [3; 32],
        token_program: [4; 32],
        user: [5; 32],
        dao_fee_config: [6; 32],
        infinix_fee_config: [7; 32],
        infinix: [8; 32],
        infinix_token_mint: [9; 32],
        fee_recipients: [10; 32],
        fee_distribution: [11; 32],
        dao_fee_recipient: [12; 32],
    }
}

#[test]
fn distribute_fees_plan() {
    assert!(matches!(distribute_fees_cpi(&keys(), &[]), Ok(None)));
    assert!(matches!(distribute_fees_cpi(&keys(), &[1, 2, 3]), Err(ErrorCode::InvalidFeeRecipient)));
    let mut data = vec![0u8; 40];
    data[16] = 1;
    data[17] = 1;
    let plan = distribute_fees_cpi(&keys(), &data).unwrap().unwrap();
    assert_eq!(plan.program_id, [1; 32]);
    assert_eq!(plan.accounts.len(), 11);
    assert_eq!(plan.accounts[0].key, [2; 32]);
    assert!(!plan.accounts[0].is_writable);
    assert!(plan.accounts[3].is_signer && plan.accounts[3].is_writable);
    assert!(plan.accounts[10].is_writable && !plan.accounts[10].is_signer);
    assert_eq!(&plan.data[..8], &[120, 56, 27, 7, 53, 176, 113, 186]);
    assert_eq!(&plan.data[8..], &258u64.to_be_bytes());
}

fn dao() -> DAOFeeConfig {
    DAOFeeConfig { bump: 1, fee_recipient: [0; 32], default_fee_numerator: 11, default_fee_floor: 22 }
}

#[test]
fn fee_config_validation_and_update() {
    let admin = SetInfinixFeeConfig { admin: ADMIN };
    let stranger = SetInfinixFeeConfig { admin: [3; 32] };
    assert_eq!(stranger.validate(&None, &None), Err(ErrorCode::Unauthorized));
    assert_eq!(admin.validate(&Some(500_000_000_000_000_001), &None), Err(ErrorCode::InvalidFeeNumerator));
    assert_eq!(admin.validate(&None, &Some(1_500_000_000_000_001)), Err(ErrorCode::InvalidFeeFloor));
    assert_eq!(admin.validate(&Some(500_000_000_000_000_000), &Some(1_500_000_000_000_000)), Ok(()));

    // Fresh account: defaults from the DAO where nothing is requested.
    let mut cfg = InfinixFeeConfig { bump: 0, fee_numerator: 0, fee_floor: 0 };
    let fresh = [0u8; 41];
    assert_eq!(InfinixFeeConfig::init_or_update_infinix_fee_config(&mut cfg, &fresh, &dao(), 7, Some(5), None), Ok(()));
    assert_eq!(cfg, InfinixFeeConfig { bump: 7, fee_numerator: 5, fee_floor: 22 });
    // Existing account: only requested values change, and the bump must match.
    let mut existing = [0u8; 41];
    existing[0] = 1;
    assert_eq!(
        InfinixFeeConfig::init_or_update_infinix_fee_config(&mut cfg, &existing, &dao(), 8, Some(9), Some(9)),
        Err(ErrorCode::InvalidBump)
    );
    assert_eq!(cfg, InfinixFeeConfig { bump: 7, fee_numerator: 5, fee_floor: 22 });
    assert_eq!(InfinixFeeConfig::init_or_update_infinix_fee_config(&mut cfg, &existing, &dao(), 7, None, Some(9)), Ok(()));
    assert_eq!(cfg, InfinixFeeConfig { bump: 7, fee_numerator: 5, fee_floor: 9 });
}

#[test]
fn fee_handler_orders_its_steps() {
    let admin = SetInfinixFeeConfig { admin: ADMIN };
    let mut cfg = InfinixFeeConfig { bump: 0, fee_numerator: 0, fee_floor: 0 };
    let fresh = [0u8; 41];
    let r = handler(&admin, &keys(), &[], &mut cfg, &fresh, &dao(), 4, None, None);
    assert!(matches!(r, Ok(None)));
    assert_eq!(cfg, InfinixFeeConfig { bump: 4, fee_numerator: 11, fee_floor: 22 });
    let stranger = SetInfinixFeeConfig { admin: [3; 32] };
    let r = handler(&stranger, &keys(), &[], &mut cfg, &fresh, &dao(), 4, Some(1), None);
    assert!(matches!(r, Err(ErrorCode::Unauthorized)));
    assert_eq!(cfg.fee_numerator, 11);
    let r = handler(&admin, &keys(), &[0u8; 30], &mut cfg, &fresh, &dao(), 4, Some(1), None);
    assert!(matches!(r, Ok(Some(_))));
    assert_eq!(cfg.fee_numerator, 1);
}
