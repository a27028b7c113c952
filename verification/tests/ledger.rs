use staking::addresses::Address;
use staking::addresses::stake_address;
use staking::addresses::vault_address;
use staking::errors::ErrorCode;
use staking::ledger::Bank;
use staking::state::StakingAccount;

fn addr(fill: u8) -> Address {
    Address::new([fill; 32])
}

fn stake_addr_of(owner: &Address, vault: &Address, pid: &Address) -> Address {
    stake_address(owner, vault, pid).expect("derivation should succeed").0
}

fn balance_at(bank: &Bank, vault_index: usize, stake: &Address) -> Option<u64> {
    for entry in bank.vaults[vault_index].stakes.iter() {
        if entry.addr.bytes == stake.bytes {
            return Some(entry.account.balance);
        }
    }
    None
}

#[test]
fn basic_round_trip() {
    let pid = addr(1);
    let mint_x = addr(2);
    let user_a = addr(3);
    let mut bank = Bank::new(&pid);

    let vault = bank.initialize(&mint_x).expect("initialize should succeed");
    let vault_index = bank.find_vault(&vault).expect("vault should be found");

    let mut holding_a: u64 = 1000;
    let r = bank.deposit(vault_index, &user_a, 100, &mut holding_a);
    assert_eq!(r, Ok(()));
    let sa = stake_addr_of(&user_a, &vault, &pid);
    assert_eq!(balance_at(&bank, vault_index, &sa), Some(100));
    assert_eq!(bank.vaults[vault_index].custodial, 100);
    assert_eq!(holding_a, 900);

    let mut destination: u64 = 0;
    let r = bank.withdraw(vault_index, &sa, &user_a, 40, &mut destination);
    assert_eq!(r, Ok(()));
    assert_eq!(balance_at(&bank, vault_index, &sa), Some(60));
    assert_eq!(bank.vaults[vault_index].custodial, 60);
    assert_eq!(destination, 40);
}

#[test]
fn overflow_rejection() {
    let pid = addr(1);
    let mint = addr(2);
    let user = addr(3);
    let mut bank = Bank::new(&pid);
    let vault = bank.initialize(&mint).expect("initialize should succeed");
    let vault_index = bank.find_vault(&vault).expect("vault should be found");

    let mut holding: u64 = u64::MAX;
    assert_eq!(bank.deposit(vault_index, &user, u64::MAX, &mut holding), Ok(()));
    let sa = stake_addr_of(&user, &vault, &pid);
    assert_eq!(balance_at(&bank, vault_index, &sa), Some(u64::MAX));

    let mut more: u64 = 10;
    assert_eq!(bank.deposit(vault_index, &user, 1, &mut more), Err(ErrorCode::Overflow));
    assert_eq!(balance_at(&bank, vault_index, &sa), Some(u64::MAX));
    assert_eq!(bank.vaults[vault_index].custodial, u64::MAX);
    assert_eq!(more, 10);
}

#[test]
fn unauthorized_withdrawal() {
    let pid = addr(1);
    let mint = addr(2);
    let user_a = addr(3);
    let user_b = addr(4);
    let mut bank = Bank::new(&pid);
    let vault = bank.initialize(&mint).expect("initialize should succeed");
    let vault_index = bank.find_vault(&vault).expect("vault should be found");

    let mut holding_a: u64 = 100;
    assert_eq!(bank.deposit(vault_index, &user_a, 50, &mut holding_a), Ok(()));
    let sa = stake_addr_of(&user_a, &vault, &pid);

    let mut destination: u64 = 0;
    let r = bank.withdraw(vault_index, &sa, &user_b, 10, &mut destination);
    assert_eq!(r, Err(ErrorCode::Unauthorized));
    assert_eq!(balance_at(&bank, vault_index, &sa), Some(50));
    assert_eq!(bank.vaults[vault_index].custodial, 50);
    assert_eq!(destination, 0);
}

#[test]
fn double_initialize() {
    let pid = addr(1);
    let mint = addr(2);
    let mut bank = Bank::new(&pid);
    assert!(bank.initialize(&mint).is_ok());
    assert_eq!(bank.initialize(&mint), Err(ErrorCode::AlreadyInitialized));
    assert_eq!(bank.vaults.len(), 1);
}

#[test]
fn insufficient_balance() {
    let pid = addr(1);
    let mint = addr(2);
    let user = addr(3);
    let mut bank = Bank::new(&pid);
    let vault = bank.initialize(&mint).expect("initialize should succeed");
    let vault_index = bank.find_vault(&vault).expect("vault should be found");

    let mut holding: u64 = 100;
    assert_eq!(bank.deposit(vault_index, &user, 50, &mut holding), Ok(()));
    let sa = stake_addr_of(&user, &vault, &pid);

    let mut destination: u64 = 0;
    let r = bank.withdraw(vault_index, &sa, &user, 60, &mut destination);
    assert_eq!(r, Err(ErrorCode::InsufficientBalance));
    assert_eq!(balance_at(&bank, vault_index, &sa), Some(50));
    assert_eq!(destination, 0);
}

#[test]
fn withdraw_from_unknown_account() {
    let pid = addr(1);
    let mint = addr(2);
    let user = addr(3);
    let mut bank = Bank::new(&pid);
    let vault = bank.initialize(&mint).expect("initialize should succeed");
    let vault_index = bank.find_vault(&vault).expect("vault should be found");

    let bogus = addr(9);
    let mut destination: u64 = 0;
    let r = bank.withdraw(vault_index, &bogus, &user, 1, &mut destination);
    assert_eq!(r, Err(ErrorCode::AccountNotFound));
}

#[test]
fn deposit_with_poor_source_fails_transfer() {
    let pid = addr(1);
    let mint = addr(2);
    let user = addr(3);
    let mut bank = Bank::new(&pid);
    let vault = bank.initialize(&mint).expect("initialize should succeed");
    let vault_index = bank.find_vault(&vault).expect("vault should be found");

    let mut holding: u64 = 5;
    let r = bank.deposit(vault_index, &user, 10, &mut holding);
    assert_eq!(r, Err(ErrorCode::TransferFailed));
    assert_eq!(holding, 5);
    assert_eq!(bank.vaults[vault_index].custodial, 0);
    let sa = stake_addr_of(&user, &vault, &pid);
    assert_eq!(balance_at(&bank, vault_index, &sa), None);
}

#[test]
fn withdraw_into_full_destination_fails_transfer() {
    let pid = addr(1);
    let mint = addr(2);
    let user = addr(3);
    let mut bank = Bank::new(&pid);
    let vault = bank.initialize(&mint).expect("initialize should succeed");
    let vault_index = bank.find_vault(&vault).expect("vault should be found");

    let mut holding: u64 = 100;
    assert_eq!(bank.deposit(vault_index, &user, 50, &mut holding), Ok(()));
    let sa = stake_addr_of(&user, &vault, &pid);

    let mut destination: u64 = u64::MAX;
    let r = bank.withdraw(vault_index, &sa, &user, 50, &mut destination);
    assert_eq!(r, Err(ErrorCode::TransferFailed));
    assert_eq!(balance_at(&bank, vault_index, &sa), Some(50));
    assert_eq!(destination, u64::MAX);
}

#[test]
fn deposit_overflowing_custody_fails_transfer() {
    let pid = addr(1);
    let mint = addr(2);
    let user_a = addr(3);
    let user_b = addr(4);
    let mut bank = Bank::new(&pid);
    let vault = bank.initialize(&mint).expect("initialize should succeed");
    let vault_index = bank.find_vault(&vault).expect("vault should be found");

    let mut holding_a: u64 = u64::MAX;
    assert_eq!(bank.deposit(vault_index, &user_a, u64::MAX, &mut holding_a), Ok(()));

    let mut holding_b: u64 = 10;
    let r = bank.deposit(vault_index, &user_b, 1, &mut holding_b);
    assert_eq!(r, Err(ErrorCode::TransferFailed));
    assert_eq!(bank.vaults[vault_index].custodial, u64::MAX);
    assert_eq!(holding_b, 10);
    let sb = stake_addr_of(&user_b, &vault, &pid);
    assert_eq!(balance_at(&bank, vault_index, &sb), None);
}

#[test]
fn zero_amount_deposit_creates_empty_account() {
    let pid = addr(1);
    let mint = addr(2);
    let user = addr(3);
    let mut bank = Bank::new(&pid);
    let vault = bank.initialize(&mint).expect("initialize should succeed");
    let vault_index = bank.find_vault(&vault).expect("vault should be found");

    let mut holding: u64 = 0;
    assert_eq!(bank.deposit(vault_index, &user, 0, &mut holding), Ok(()));
    let sa = stake_addr_of(&user, &vault, &pid);
    assert_eq!(balance_at(&bank, vault_index, &sa), Some(0));
    assert_eq!(bank.vaults[vault_index].custodial, 0);
}

#[test]
fn vault_authority_reproduces_the_derivation() {
    let pid = addr(1);
    let mint = addr(2);
    let mut bank = Bank::new(&pid);
    let vault = bank.initialize(&mint).expect("initialize should succeed");
    let vault_index = bank.find_vault(&vault).expect("vault should be found");

    let authority = bank.vault_authority(vault_index);
    let (derived, bump) = vault_address(&mint, &pid).expect("derivation should succeed");
    assert_eq!(derived.bytes, vault.bytes);
    assert_eq!(authority.bump(), bump);

    let seeds = authority.signer_seeds();
    assert_eq!(seeds.len(), 3);
    assert_eq!(seeds[0], b"vault".to_vec());
    assert_eq!(seeds[1], mint.bytes.to_vec());
    assert_eq!(seeds[2], vec![bump]);
}

#[test]
fn first_depositor_claims_the_account() {
    let user_a = addr(3);
    let user_b = addr(4);
    let mut account = StakingAccount::new();
    assert_eq!(account.deposit(&user_a, 5), Ok(()));
    assert_eq!(account.owner.bytes, user_a.bytes);
    assert_eq!(account.deposit(&user_b, 7), Ok(()));
    assert_eq!(account.owner.bytes, user_a.bytes);
    assert_eq!(account.balance, 12);

    assert_eq!(account.withdraw(&user_b, 1), Err(ErrorCode::Unauthorized));
    assert_eq!(account.withdraw(&user_a, 12), Ok(()));
    assert_eq!(account.balance, 0);
}
