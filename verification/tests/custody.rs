use anchor_lang::solana_program::pubkey::Pubkey as ChainKey;
use solana_token_presale::custody::{
    derive_authority, derive_user_state, id, is_derived, label_bytes, PROGRAM_ID,
};
use solana_token_presale::error::PreSaleError;
use solana_token_presale::pricing::token_amount;
use solana_token_presale::pubkey::Pubkey;
use solana_token_presale::transfer::{
    settle, Seed, TransferOutcome, GLOBAL_STATE_SEED, SOL_VAULT_SEED, USER_STATE_SEED,
};

fn named(n: u8) -> Pubkey {
    Pubkey::new([n; 32])
}

#[test]
fn seeds_spell_their_names() {
    assert_eq!(&GLOBAL_STATE_SEED[..], b"GLOBAL_STATE_SEED");
    assert_eq!(&USER_STATE_SEED[..], b"USER_STATE_SEED");
    assert_eq!(&SOL_VAULT_SEED[..], b"SOL_VAULT_SEED");
}

#[test]
fn label_bytes_are_the_seed_constants() {
    assert_eq!(label_bytes(Seed::GlobalState), b"GLOBAL_STATE_SEED".to_vec());
    assert_eq!(label_bytes(Seed::SolVault), b"SOL_VAULT_SEED".to_vec());
    assert_eq!(label_bytes(Seed::GlobalState), GLOBAL_STATE_SEED.to_vec());
    assert_eq!(label_bytes(Seed::SolVault), SOL_VAULT_SEED.to_vec());
}

#[test]
fn label_bytes_and_bump_sign_for_the_derived_address() {
    let program = ChainKey::new_from_array(PROGRAM_ID);
    let (address, bump) = ChainKey::find_program_address(&[b"SOL_VAULT_SEED"], &program);
    let label = label_bytes(Seed::SolVault);
    let signed = ChainKey::create_program_address(&[&label[..], &[bump]], &program).unwrap();
    assert_eq!(signed, address);
    assert_eq!(
        derive_authority(Seed::SolVault, bump, &id()),
        Some(Pubkey::new(signed.to_bytes()))
    );
}

#[test]
fn program_id_is_the_declared_one() {
    assert_eq!(id().to_bytes(), PROGRAM_ID);
    assert_eq!(
        ChainKey::new_from_array(PROGRAM_ID).to_string(),
        "FKVLuN7zhKh4xjVv7264SkW6oGKgPzHa8hz7pqK9KwzL"
    );
}

#[test]
fn derive_gives_the_treasury_address() {
    let program = ChainKey::new_from_array(PROGRAM_ID);
    let (address, bump) = ChainKey::find_program_address(&[b"GLOBAL_STATE_SEED"], &program);
    let derived = derive_authority(Seed::GlobalState, bump, &id());
    assert_eq!(derived, Some(Pubkey::new(address.to_bytes())));
    assert_ne!(derived, Some(id()));
}

#[test]
fn derive_gives_the_currency_vault_address() {
    let program = ChainKey::new_from_array(PROGRAM_ID);
    let (address, bump) = ChainKey::find_program_address(&[b"SOL_VAULT_SEED"], &program);
    let derived = derive_authority(Seed::SolVault, bump, &id());
    assert_eq!(derived, Some(Pubkey::new(address.to_bytes())));
    assert_ne!(derived, derive_authority(Seed::GlobalState, bump, &id()));
}

#[test]
fn derive_depends_on_the_program() {
    let other = named(77);
    let program = ChainKey::new_from_array(other.to_bytes());
    let (address, bump) = ChainKey::find_program_address(&[b"GLOBAL_STATE_SEED"], &program);
    assert_eq!(
        derive_authority(Seed::GlobalState, bump, &other),
        Some(Pubkey::new(address.to_bytes()))
    );
    assert_ne!(
        derive_authority(Seed::GlobalState, bump, &id()),
        Some(Pubkey::new(address.to_bytes()))
    );
}

#[test]
fn derive_agrees_with_the_chain_for_every_bump() {
    let program = ChainKey::new_from_array(PROGRAM_ID);
    let mut found: u32 = 0;
    let mut refused: u32 = 0;
    for bump in 0..=255u8 {
        let expected = ChainKey::create_program_address(&[b"SOL_VAULT_SEED", &[bump]], &program)
            .ok()
            .map(|address| Pubkey::new(address.to_bytes()));
        assert_eq!(derive_authority(Seed::SolVault, bump, &id()), expected);
        if expected.is_some() {
            found += 1;
        } else {
            refused += 1;
        }
    }
    assert!(found > 0);
    assert!(refused > 0);
}

#[test]
fn derive_user_state_gives_the_record_address() {
    let treasury = named(7);
    let owner = named(8);
    let program = ChainKey::new_from_array(PROGRAM_ID);
    let (address, bump) =
        ChainKey::find_program_address(&[&treasury.to_bytes(), &owner.to_bytes()], &program);
    let derived = derive_user_state(&treasury, &owner, bump, &id());
    assert_eq!(derived, Some(Pubkey::new(address.to_bytes())));
    assert_eq!(derive_user_state(&treasury, &owner, bump, &id()), derived);
    let (other, other_bump) =
        ChainKey::find_program_address(&[&owner.to_bytes(), &treasury.to_bytes()], &program);
    assert_ne!(address, other);
    assert_eq!(
        derive_user_state(&owner, &treasury, other_bump, &id()),
        Some(Pubkey::new(other.to_bytes()))
    );
}

#[test]
fn is_derived_compares_with_the_claim() {
    assert!(is_derived(&named(1), Some(named(1))));
    assert!(!is_derived(&named(1), Some(named(2))));
    assert!(!is_derived(&named(1), None));
}

#[test]
fn is_derived_accepts_what_derive_gives() {
    let program = ChainKey::new_from_array(PROGRAM_ID);
    let (address, bump) = ChainKey::find_program_address(&[b"GLOBAL_STATE_SEED"], &program);
    let treasury = Pubkey::new(address.to_bytes());
    assert!(is_derived(&treasury, derive_authority(Seed::GlobalState, bump, &id())));
    assert!(!is_derived(&treasury, derive_authority(Seed::SolVault, bump, &id())));
    assert!(!is_derived(&treasury, derive_authority(Seed::GlobalState, bump, &named(1))));
    for stale in 0..=255u8 {
        if stale != bump {
            assert!(!is_derived(&treasury, derive_authority(Seed::GlobalState, stale, &id())));
        }
    }
}

#[test]
fn settle_reports_a_refused_transfer() {
    assert_eq!(settle(TransferOutcome::Completed), Ok(()));
    assert_eq!(settle(TransferOutcome::Refused), Err(PreSaleError::TransferFailure));
}

#[test]
fn token_amount_is_quotient_times_power_of_ten() {
    assert_eq!(token_amount(1000, 100, 6), Ok(10_000_000));
    assert_eq!(token_amount(1000, 100, 0), Ok(10));
    assert_eq!(token_amount(7, 2, 1), Ok(30));
    assert_eq!(token_amount(0, 5, 19), Ok(0));
    assert_eq!(token_amount(5, 5, 19), Ok(10_000_000_000_000_000_000));
    assert_eq!(token_amount(u64::MAX, 1, 0), Ok(u64::MAX));
    assert_eq!(token_amount(u64::MAX, u64::MAX, 19), Ok(10_000_000_000_000_000_000));
}

#[test]
fn token_amount_powers_of_ten_are_exact() {
    let mut expected: u64 = 1;
    for decimal in 0..=19u64 {
        assert_eq!(token_amount(1, 1, decimal), Ok(expected));
        if decimal < 19 {
            expected *= 10;
        }
    }
}

#[test]
fn token_amount_reports_each_overflow() {
    assert_eq!(token_amount(1000, 0, 6), Err(PreSaleError::ArithmeticOverflow));
    assert_eq!(token_amount(0, 0, 0), Err(PreSaleError::ArithmeticOverflow));
    assert_eq!(token_amount(0, 1, 20), Err(PreSaleError::ArithmeticOverflow));
    assert_eq!(token_amount(1, 1, 64), Err(PreSaleError::ArithmeticOverflow));
    assert_eq!(token_amount(1, 1, u64::MAX), Err(PreSaleError::ArithmeticOverflow));
    assert_eq!(token_amount(2, 1, 19), Err(PreSaleError::ArithmeticOverflow));
    assert_eq!(token_amount(u64::MAX, 1, 1), Err(PreSaleError::ArithmeticOverflow));
}

#[test]
fn error_codes_are_stable() {
    assert_eq!(PreSaleError::NotAllowedAuthority.code(), 6000);
    assert_eq!(PreSaleError::InvalidToken.code(), 6001);
    assert_eq!(PreSaleError::ArithmeticOverflow.code(), 6002);
    assert_eq!(PreSaleError::ArithmeticUnderflow.code(), 6003);
    assert_eq!(PreSaleError::TransferFailure.code(), 6004);
    assert_eq!(PreSaleError::AlreadyInitialized.code(), 6005);
    assert_eq!(PreSaleError::NotInitialized.code(), 6006);
}

#[test]
fn error_messages_are_readable() {
    assert_eq!(PreSaleError::NotAllowedAuthority.message(), "Not allowed authority");
    assert_eq!(PreSaleError::InvalidToken.message(), "Should be specied tokens");
    assert_eq!(PreSaleError::ArithmeticOverflow.message(), "Arithmetic overflow");
    assert_eq!(PreSaleError::ArithmeticUnderflow.message(), "Arithmetic underflow");
    assert_eq!(PreSaleError::TransferFailure.message(), "Transfer failed");
    assert_eq!(PreSaleError::AlreadyInitialized.message(), "Already initialized");
    assert_eq!(PreSaleError::NotInitialized.message(), "Not initialized");
}

#[test]
fn keys_are_equal_when_their_bytes_are() {
    let mut bytes = [5u8; 32];
    assert_eq!(Pubkey::new(bytes), named(5));
    bytes[31] = 6;
    assert_ne!(Pubkey::new(bytes), named(5));
    bytes[31] = 5;
    bytes[0] = 6;
    assert_ne!(Pubkey::new(bytes), named(5));
    assert_eq!(Pubkey::default().to_bytes(), [0u8; 32]);
}
