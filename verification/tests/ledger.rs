use cartoonist_auction::identity::Identity;
use cartoonist_auction::ledger::{Authority, Balance, Ledger, LedgerError, Mint, Transfer};

fn key(n: u8) -> Identity {
    Identity::new([n; 32])
}

fn asset() -> Mint {
    Mint { key: key(2), decimals: 6 }
}

fn two_balances() -> Ledger {
    let mut ledger = Ledger::new(asset());
    assert_eq!(ledger.open(key(30), Authority::Party(key(31)), 1_000), Ok(()));
    assert_eq!(ledger.open(key(40), Authority::Custodian, 10), Ok(()));
    ledger
}

fn movement(from: u8, to: u8, authority: Authority, amount: u64) -> Transfer {
    Transfer { from: key(from), to: key(to), authority, mint: key(2), amount, decimals: 6 }
}

#[test]
fn identities_differ_in_a_single_byte() {
    let mut bytes = [7u8; 32];
    let a = Identity::new(bytes);
    bytes[31] = 8;
    let b = Identity::new(bytes);
    assert_ne!(a, b);
    assert_eq!(a, Identity::new([7u8; 32]));
    assert_eq!(b.to_bytes()[31], 8);
    assert_eq!(b.to_bytes()[0], 7);
}

#[test]
fn authorities_compare_by_kind_and_party() {
    assert_eq!(Authority::Custodian, Authority::Custodian);
    assert_eq!(Authority::Party(key(1)), Authority::Party(key(1)));
    assert_ne!(Authority::Party(key(1)), Authority::Party(key(2)));
    assert_ne!(Authority::Party(key(1)), Authority::Custodian);
    assert_ne!(Authority::Custodian, Authority::Party(key(1)));
}

#[test]
fn a_new_ledger_has_no_balance() {
    let ledger = Ledger::new(asset());
    assert_eq!(ledger.get(&key(30)), None);
}

#[test]
fn open_lists_a_balance_once() {
    let mut ledger = two_balances();
    assert_eq!(
        ledger.get(&key(30)),
        Some(Balance { address: key(30), owner: Authority::Party(key(31)), amount: 1_000 })
    );
    assert_eq!(
        ledger.open(key(30), Authority::Party(key(99)), 5),
        Err(LedgerError::BalanceExists)
    );
    assert_eq!(ledger.get(&key(30)).unwrap().amount, 1_000);
    assert_eq!(ledger.get(&key(30)).unwrap().owner, Authority::Party(key(31)));
}

#[test]
fn transfer_moves_the_exact_amount() {
    let mut ledger = two_balances();
    assert_eq!(ledger.transfer(&movement(30, 40, Authority::Party(key(31)), 250)), Ok(()));
    assert_eq!(ledger.get(&key(30)).unwrap().amount, 750);
    assert_eq!(ledger.get(&key(40)).unwrap().amount, 260);
    assert_eq!(ledger.transfer(&movement(40, 30, Authority::Custodian, 260)), Ok(()));
    assert_eq!(ledger.get(&key(30)).unwrap().amount, 1_010);
    assert_eq!(ledger.get(&key(40)).unwrap().amount, 0);
    assert_eq!(ledger.get(&key(40)).unwrap().owner, Authority::Custodian);
}

#[test]
fn transfer_refuses_unknown_balances() {
    let mut ledger = two_balances();
    assert_eq!(
        ledger.transfer(&movement(99, 40, Authority::Party(key(31)), 1)),
        Err(LedgerError::UnknownBalance)
    );
    assert_eq!(
        ledger.transfer(&movement(30, 99, Authority::Party(key(31)), 1)),
        Err(LedgerError::UnknownBalance)
    );
    assert_eq!(ledger.get(&key(30)).unwrap().amount, 1_000);
}

#[test]
fn transfer_refuses_a_movement_onto_its_source() {
    let mut ledger = two_balances();
    assert_eq!(
        ledger.transfer(&movement(30, 30, Authority::Party(key(31)), 1)),
        Err(LedgerError::SameBalance)
    );
    assert_eq!(ledger.get(&key(30)).unwrap().amount, 1_000);
}

#[test]
fn transfer_refuses_another_authority_than_the_owner() {
    let mut ledger = two_balances();
    assert_eq!(
        ledger.transfer(&movement(40, 30, Authority::Party(key(31)), 1)),
        Err(LedgerError::Unauthorized)
    );
    assert_eq!(
        ledger.transfer(&movement(30, 40, Authority::Custodian, 1)),
        Err(LedgerError::Unauthorized)
    );
    assert_eq!(
        ledger.transfer(&movement(30, 40, Authority::Party(key(30)), 1)),
        Err(LedgerError::Unauthorized)
    );
    assert_eq!(ledger.get(&key(30)).unwrap().amount, 1_000);
    assert_eq!(ledger.get(&key(40)).unwrap().amount, 10);
}

#[test]
fn transfer_refuses_another_denomination() {
    let mut ledger = two_balances();
    let mut other_asset = movement(30, 40, Authority::Party(key(31)), 1);
    other_asset.mint = key(3);
    assert_eq!(ledger.transfer(&other_asset), Err(LedgerError::DenominationMismatch));
    let mut other_precision = movement(30, 40, Authority::Party(key(31)), 1);
    other_precision.decimals = 9;
    assert_eq!(ledger.transfer(&other_precision), Err(LedgerError::DenominationMismatch));
    assert_eq!(ledger.get(&key(30)).unwrap().amount, 1_000);
}

#[test]
fn transfer_refuses_more_than_the_source_holds() {
    let mut ledger = two_balances();
    assert_eq!(
        ledger.transfer(&movement(30, 40, Authority::Party(key(31)), 1_001)),
        Err(LedgerError::InsufficientFunds)
    );
    assert_eq!(ledger.get(&key(30)).unwrap().amount, 1_000);
    assert_eq!(ledger.get(&key(40)).unwrap().amount, 10);
    assert_eq!(ledger.transfer(&movement(30, 40, Authority::Party(key(31)), 1_000)), Ok(()));
    assert_eq!(ledger.get(&key(30)).unwrap().amount, 0);
}

#[test]
fn transfer_refuses_more_than_the_target_can_hold() {
    let mut ledger = two_balances();
    assert_eq!(ledger.open(key(50), Authority::Party(key(31)), u64::MAX - 5), Ok(()));
    assert_eq!(
        ledger.transfer(&movement(30, 50, Authority::Party(key(31)), 6)),
        Err(LedgerError::Overflow)
    );
    assert_eq!(ledger.get(&key(50)).unwrap().amount, u64::MAX - 5);
    assert_eq!(ledger.transfer(&movement(30, 50, Authority::Party(key(31)), 5)), Ok(()));
    assert_eq!(ledger.get(&key(50)).unwrap().amount, u64::MAX);
}
