use club_membership::{Caller, Config, Error, Ledger, Pallet, TransferError};

fn config_with(pallet_id: [u8; 8]) -> Config {
    Config {
        pallet_id,
        string_limit: 32,
        max_membership_years: 100,
        club_creation_deposit: 10,
        year_in_blocks: 100,
    }
}

#[test]
fn treasury_account_comes_from_the_pallet_id() {
    let pallet = Pallet::new(config_with(*b"membersp"));
    assert_eq!(pallet.account_id(), u64::from_le_bytes(*b"modlmemb"));
    assert_eq!(pallet.account_id(), 0x626d_656d_6c64_6f6d);
}

#[test]
fn treasury_account_reads_the_first_four_bytes_of_the_seed() {
    let zero = Pallet::new(config_with([0; 8]));
    assert_eq!(zero.account_id(), 0x6c64_6f6d);
    let one = Pallet::new(config_with([1, 0, 0, 0, 0, 0, 0, 0]));
    assert_eq!(one.account_id(), 0x1_6c64_6f6d);
    let high = Pallet::new(config_with([0, 0, 0, 0xff, 9, 9, 9, 9]));
    assert_eq!(high.account_id(), 0xff00_0000_6c64_6f6d);
    let all = Pallet::new(config_with([0xff; 8]));
    assert_eq!(all.account_id(), 0xffff_ffff_6c64_6f6d);
    let mixed = Pallet::new(config_with([1, 2, 3, 4, 5, 6, 7, 8]));
    assert_eq!(mixed.account_id(), 0x0403_0201_6c64_6f6d);
}

#[test]
fn withdrawal_takes_the_exact_amount_from_the_treasury() {
    let pallet = Pallet::new(config_with(*b"membersp"));
    let treasury = pallet.account_id();
    let mut ledger = Ledger::new(1);
    ledger.set_balance(treasury, 500);
    ledger.set_balance(1, 20);
    assert_eq!(pallet.withdraw_fees(&mut ledger, Caller::Root, 1, 120), Ok(()));
    assert_eq!(ledger.balance_of(treasury), 380);
    assert_eq!(ledger.balance_of(1), 140);
}

#[test]
fn withdrawal_beyond_what_the_treasury_can_spare_is_refused() {
    let pallet = Pallet::new(config_with(*b"membersp"));
    let treasury = pallet.account_id();
    let mut ledger = Ledger::new(1);
    ledger.set_balance(treasury, 500);
    assert_eq!(
        pallet.withdraw_fees(&mut ledger, Caller::Root, 1, 500),
        Err(Error::Transfer(TransferError::FundsUnavailable))
    );
    assert_eq!(
        pallet.withdraw_fees(&mut ledger, Caller::Root, 1, 501),
        Err(Error::Transfer(TransferError::FundsUnavailable))
    );
    assert_eq!(ledger.balance_of(treasury), 500);
    assert_eq!(ledger.balance_of(1), 0);
    assert_eq!(pallet.withdraw_fees(&mut ledger, Caller::Root, 1, 499), Ok(()));
    assert_eq!(ledger.balance_of(treasury), 1);
    assert_eq!(ledger.balance_of(1), 499);
}

#[test]
fn withdrawal_is_for_root_alone() {
    let pallet = Pallet::new(config_with(*b"membersp"));
    let treasury = pallet.account_id();
    let mut ledger = Ledger::new(1);
    ledger.set_balance(treasury, 500);
    assert_eq!(
        pallet.withdraw_fees(&mut ledger, Caller::Signed(1), 1, 10),
        Err(Error::BadOrigin)
    );
    assert_eq!(
        pallet.withdraw_fees(&mut ledger, Caller::Signed(treasury), 1, 10),
        Err(Error::BadOrigin)
    );
    assert_eq!(ledger.balance_of(treasury), 500);
}

#[test]
fn withdrawal_that_would_overflow_the_destination_is_refused() {
    let pallet = Pallet::new(config_with(*b"membersp"));
    let treasury = pallet.account_id();
    let mut ledger = Ledger::new(0);
    ledger.set_balance(treasury, 500);
    ledger.set_balance(1, u64::MAX - 3);
    assert_eq!(
        pallet.withdraw_fees(&mut ledger, Caller::Root, 1, 4),
        Err(Error::Transfer(TransferError::Overflow))
    );
    assert_eq!(ledger.balance_of(treasury), 500);
}
