use cash_app::address::{derive_address, Address, Namespace};
use cash_app::errors::ErrorCode;
use cash_app::ledger::Ledger;

const X: u64 = 11;
const Y: u64 = 22;
const Z: u64 = 33;

fn ledger_with_account(owner: u64, balance: u64) -> Ledger {
    let mut ledger = Ledger::new();
    assert_eq!(ledger.initialize_account(owner), Ok(()));
    if balance > 0 {
        assert_eq!(ledger.deposit_funds(owner, balance), Ok(()));
    }
    ledger
}

#[test]
fn initialize_account_writes_fresh_record() {
    let mut ledger = Ledger::new();
    assert!(ledger.get_account(X).is_none());
    assert_eq!(ledger.initialize_account(X), Ok(()));
    let account = ledger.get_account(X).unwrap();
    assert_eq!(account.owner, X);
    assert_eq!(account.balance, 0);
    assert_eq!(account.pending_request_counter, 0);
    assert_eq!(account.friends.len(), 0);
}

#[test]
fn initialize_account_rejects_second_call() {
    let mut ledger = ledger_with_account(X, 70);
    assert_eq!(ledger.initialize_account(X), Err(ErrorCode::AlreadyExists));
    let account = ledger.get_account(X).unwrap();
    assert_eq!(account.owner, X);
    assert_eq!(account.balance, 70);
}

#[test]
fn zero_amount_fails_invalid_amount_everywhere() {
    let mut ledger = ledger_with_account(X, 40);
    assert_eq!(ledger.initialize_account(Y), Ok(()));
    assert_eq!(ledger.deposit_funds(X, 0), Err(ErrorCode::InvalidAmount));
    assert_eq!(ledger.withdraw_funds(X, 0), Err(ErrorCode::InvalidAmount));
    assert_eq!(ledger.transfer_funds(X, Y, 0), Err(ErrorCode::InvalidAmount));
    assert_eq!(ledger.new_pending_request(X, Y, 0), Err(ErrorCode::InvalidAmount));
    assert_eq!(ledger.get_account(X).unwrap().balance, 40);
    assert_eq!(ledger.get_account(Y).unwrap().balance, 0);
    assert_eq!(ledger.get_account(X).unwrap().pending_request_counter, 0);
    assert!(ledger.get_request(X).is_none());
}

#[test]
fn deposit_withdraw_round_trip_restores_balance() {
    let mut ledger = ledger_with_account(X, 250);
    assert_eq!(ledger.deposit_funds(X, 100), Ok(()));
    assert_eq!(ledger.get_account(X).unwrap().balance, 350);
    assert_eq!(ledger.withdraw_funds(X, 100), Ok(()));
    assert_eq!(ledger.get_account(X).unwrap().balance, 250);
}

#[test]
fn deposit_to_missing_account_fails_not_found() {
    let mut ledger = Ledger::new();
    assert_eq!(ledger.deposit_funds(X, 10), Err(ErrorCode::NotFound));
}

#[test]
fn withdraw_from_missing_account_fails_not_found() {
    let mut ledger = Ledger::new();
    assert_eq!(ledger.withdraw_funds(X, 10), Err(ErrorCode::NotFound));
}

#[test]
fn transfer_moves_exact_amount_both_sides() {
    let mut ledger = ledger_with_account(X, 80);
    assert_eq!(ledger.initialize_account(Y), Ok(()));
    assert_eq!(ledger.deposit_funds(Y, 5), Ok(()));
    assert_eq!(ledger.transfer_funds(X, Y, 30), Ok(()));
    assert_eq!(ledger.get_account(X).unwrap().balance, 50);
    assert_eq!(ledger.get_account(Y).unwrap().balance, 35);
}

#[test]
fn transfer_with_insufficient_funds_changes_neither_balance() {
    let mut ledger = ledger_with_account(X, 20);
    assert_eq!(ledger.initialize_account(Y), Ok(()));
    assert_eq!(ledger.transfer_funds(X, Y, 21), Err(ErrorCode::InsufficientFunds));
    assert_eq!(ledger.get_account(X).unwrap().balance, 20);
    assert_eq!(ledger.get_account(Y).unwrap().balance, 0);
}

#[test]
fn transfer_to_missing_account_fails_not_found() {
    let mut ledger = ledger_with_account(X, 20);
    assert_eq!(ledger.transfer_funds(X, Y, 10), Err(ErrorCode::NotFound));
    assert_eq!(ledger.get_account(X).unwrap().balance, 20);
}

#[test]
fn transfer_to_self_keeps_balance() {
    let mut ledger = ledger_with_account(X, 20);
    assert_eq!(ledger.transfer_funds(X, X, 15), Ok(()));
    assert_eq!(ledger.get_account(X).unwrap().balance, 20);
}

#[test]
fn add_friend_appends_and_permits_duplicates() {
    let mut ledger = ledger_with_account(X, 0);
    assert_eq!(ledger.add_friend(X, Y), Ok(()));
    assert_eq!(ledger.add_friend(X, Y), Ok(()));
    assert_eq!(ledger.add_friend(X, Z), Ok(()));
    let account = ledger.get_account(X).unwrap();
    assert_eq!(account.friends, vec![Y, Y, Z]);
}

#[test]
fn add_friend_without_account_fails_not_found() {
    let mut ledger = Ledger::new();
    assert_eq!(ledger.add_friend(X, Y), Err(ErrorCode::NotFound));
}

#[test]
fn friend_list_accepts_hundred_then_fails_capacity_exceeded() {
    let mut ledger = ledger_with_account(X, 0);
    for i in 0..100u64 {
        assert_eq!(ledger.add_friend(X, i), Ok(()));
    }
    assert_eq!(ledger.get_account(X).unwrap().friends.len(), 100);
    assert_eq!(ledger.add_friend(X, 100), Err(ErrorCode::CapacityExceeded));
    assert_eq!(ledger.get_account(X).unwrap().friends.len(), 100);
}

#[test]
fn new_pending_request_records_snapshot_and_increments_counter() {
    let mut ledger = ledger_with_account(Y, 0);
    assert_eq!(ledger.new_pending_request(Y, X, 50), Ok(()));
    let request = ledger.get_request(Y).unwrap();
    assert_eq!(request.sender, X);
    assert_eq!(request.recipient, Y);
    assert_eq!(request.amount, 50);
    assert_eq!(request.pending_request_count, 0);
    assert_eq!(ledger.get_account(Y).unwrap().pending_request_counter, 1);
}

#[test]
fn second_open_request_fails_already_exists() {
    let mut ledger = ledger_with_account(Y, 0);
    assert_eq!(ledger.new_pending_request(Y, X, 50), Ok(()));
    assert_eq!(ledger.new_pending_request(Y, Z, 7), Err(ErrorCode::AlreadyExists));
    let request = ledger.get_request(Y).unwrap();
    assert_eq!(request.sender, X);
    assert_eq!(request.amount, 50);
    assert_eq!(ledger.get_account(Y).unwrap().pending_request_counter, 1);
}

#[test]
fn request_without_account_fails_not_found() {
    let mut ledger = Ledger::new();
    assert_eq!(ledger.new_pending_request(Y, X, 50), Err(ErrorCode::NotFound));
}

#[test]
fn request_counter_keeps_increasing_over_resolved_requests() {
    let mut ledger = ledger_with_account(Y, 0);
    assert_eq!(ledger.new_pending_request(Y, X, 50), Ok(()));
    assert_eq!(ledger.decline_request(Y, Y), Ok(()));
    assert_eq!(ledger.new_pending_request(Y, X, 60), Ok(()));
    let request = ledger.get_request(Y).unwrap();
    assert_eq!(request.pending_request_count, 1);
    assert_eq!(ledger.get_account(Y).unwrap().pending_request_counter, 2);
}

#[test]
fn accept_request_moves_funds_and_closes_request() {
    let mut ledger = ledger_with_account(X, 80);
    assert_eq!(ledger.initialize_account(Y), Ok(()));
    assert_eq!(ledger.new_pending_request(Y, X, 50), Ok(()));
    assert_eq!(ledger.accept_request(X, Y), Ok(()));
    assert_eq!(ledger.get_account(X).unwrap().balance, 30);
    assert_eq!(ledger.get_account(Y).unwrap().balance, 50);
    assert!(ledger.get_request(Y).is_none());
    assert_eq!(ledger.get_account(Y).unwrap().pending_request_counter, 1);
}

#[test]
fn accept_request_by_wrong_caller_fails_invalid_signer() {
    let mut ledger = ledger_with_account(X, 80);
    assert_eq!(ledger.initialize_account(Y), Ok(()));
    assert_eq!(ledger.new_pending_request(Y, X, 50), Ok(()));
    assert_eq!(ledger.accept_request(Z, Y), Err(ErrorCode::InvalidSigner));
    assert_eq!(ledger.get_account(X).unwrap().balance, 80);
    assert!(ledger.get_request(Y).is_some());
}

#[test]
fn accept_request_with_insufficient_funds_keeps_request_open() {
    let mut ledger = ledger_with_account(X, 10);
    assert_eq!(ledger.initialize_account(Y), Ok(()));
    assert_eq!(ledger.new_pending_request(Y, X, 50), Ok(()));
    assert_eq!(ledger.accept_request(X, Y), Err(ErrorCode::InsufficientFunds));
    assert_eq!(ledger.get_account(X).unwrap().balance, 10);
    assert_eq!(ledger.get_account(Y).unwrap().balance, 0);
    assert!(ledger.get_request(Y).is_some());
}

#[test]
fn accept_request_from_senderless_account_fails_not_found() {
    let mut ledger = ledger_with_account(Y, 0);
    assert_eq!(ledger.new_pending_request(Y, X, 50), Ok(()));
    assert_eq!(ledger.accept_request(X, Y), Err(ErrorCode::NotFound));
    assert!(ledger.get_request(Y).is_some());
}

#[test]
fn accept_request_without_request_fails_not_found() {
    let mut ledger = ledger_with_account(X, 80);
    assert_eq!(ledger.accept_request(X, Y), Err(ErrorCode::NotFound));
}

#[test]
fn decline_request_closes_without_balance_change() {
    let mut ledger = ledger_with_account(X, 80);
    assert_eq!(ledger.initialize_account(Y), Ok(()));
    assert_eq!(ledger.new_pending_request(Y, X, 50), Ok(()));
    assert_eq!(ledger.decline_request(Y, Y), Ok(()));
    assert_eq!(ledger.get_account(X).unwrap().balance, 80);
    assert_eq!(ledger.get_account(Y).unwrap().balance, 0);
    assert!(ledger.get_request(Y).is_none());
    assert_eq!(ledger.get_account(Y).unwrap().pending_request_counter, 1);
}

#[test]
fn decline_request_by_wrong_caller_fails_invalid_signer() {
    let mut ledger = ledger_with_account(Y, 0);
    assert_eq!(ledger.new_pending_request(Y, X, 50), Ok(()));
    assert_eq!(ledger.decline_request(X, Y), Err(ErrorCode::InvalidSigner));
    assert!(ledger.get_request(Y).is_some());
}

#[test]
fn decline_request_without_request_fails_not_found() {
    let mut ledger = Ledger::new();
    assert_eq!(ledger.decline_request(Y, Y), Err(ErrorCode::NotFound));
}

#[test]
fn scenario_deposit_withdraw_transfer() {
    let mut ledger = Ledger::new();
    assert_eq!(ledger.initialize_account(X), Ok(()));
    assert_eq!(ledger.get_account(X).unwrap().balance, 0);
    assert_eq!(ledger.deposit_funds(X, 100), Ok(()));
    assert_eq!(ledger.get_account(X).unwrap().balance, 100);
    assert_eq!(ledger.withdraw_funds(X, 150), Err(ErrorCode::InsufficientFunds));
    assert_eq!(ledger.get_account(X).unwrap().balance, 100);
    assert_eq!(ledger.initialize_account(Y), Ok(()));
    assert_eq!(ledger.get_account(Y).unwrap().balance, 0);
    assert_eq!(ledger.transfer_funds(X, Y, 100), Ok(()));
    assert_eq!(ledger.get_account(X).unwrap().balance, 0);
    assert_eq!(ledger.get_account(Y).unwrap().balance, 100);
}

#[test]
fn scenario_request_and_accept() {
    let mut ledger = ledger_with_account(X, 100);
    assert_eq!(ledger.initialize_account(Y), Ok(()));
    assert_eq!(ledger.get_account(Y).unwrap().pending_request_counter, 0);
    assert_eq!(ledger.new_pending_request(Y, X, 50), Ok(()));
    assert_eq!(ledger.get_account(Y).unwrap().pending_request_counter, 1);
    assert_eq!(ledger.accept_request(X, Y), Ok(()));
    assert_eq!(ledger.get_account(X).unwrap().balance, 50);
    assert_eq!(ledger.get_account(Y).unwrap().balance, 50);
    assert!(ledger.get_request(Y).is_none());
    assert_eq!(ledger.get_account(Y).unwrap().pending_request_counter, 1);
}

#[test]
fn derive_address_is_deterministic_and_collision_free() {
    let a1 = derive_address(Namespace::CashAccount, X);
    let a2 = derive_address(Namespace::CashAccount, X);
    assert_eq!(a1, a2);
    assert_eq!(a1, Address { namespace: Namespace::CashAccount, identity: X });
    let b = derive_address(Namespace::PendingRequest, X);
    let c = derive_address(Namespace::CashAccount, Y);
    assert_ne!(a1, b);
    assert_ne!(a1, c);
    assert_ne!(b, c);
}

#[test]
fn error_codes_carry_their_messages() {
    assert_eq!(
        ErrorCode::InvalidAmount.message(),
        "The provided amount must be greater than zero."
    );
    assert_eq!(
        ErrorCode::InsufficientFunds.message(),
        "Insufficient funds to perform the transfer."
    );
    assert_eq!(
        ErrorCode::InvalidSigner.message(),
        "Signer does not have access to call this instruction."
    );
    assert_eq!(
        ErrorCode::AlreadyExists.message(),
        "A record already exists at the derived address."
    );
    assert_eq!(ErrorCode::NotFound.message(), "No record exists at the derived address.");
    assert_eq!(ErrorCode::CapacityExceeded.message(), "The friend list is full.");
}
