//! The ghost model of the ledger and the transition of each operation.
//!
//! `LedgerModel` is the mathematical state: two maps keyed by identity, one
//! of account records and one of open payment requests. Each operation of
//! the executable `Ledger` is specified by a transition function here that
//! returns either the exact successor state or the exact error code; the
//! executable operations ensure that their effect equals their transition,
//! so the laws in `crate::laws` are proved once, over this model.

use vstd::prelude::*;

use crate::address::Identity;
use crate::errors::ErrorCode;

verus! {

/// Upper bound on the number of friend-list entries of one account.
pub const FRIEND_CAPACITY: usize = 100;

/// Ghost state of one account record.
#[verifier::ext_equal]
pub struct AccountModel {
    /// The controlling identity; immutable after creation.
    pub owner: Identity,
    /// Append-only list of befriended identities; duplicates permitted.
    pub friends: Seq<Identity>,
    /// Native-unit quantity held by the record's storage slot.
    pub balance: int,
    /// Number of pending requests this identity has originated as recipient.
    pub pending_request_counter: int,
}

/// Ghost state of one open payment request.
#[verifier::ext_equal]
pub struct RequestModel {
    /// The identity expected to pay.
    pub sender: Identity,
    /// The identity that created the request and will receive the funds.
    pub recipient: Identity,
    /// The requested quantity; always positive.
    pub amount: int,
    /// Snapshot of the recipient's request counter at creation time.
    pub pending_request_count: int,
}

/// Ghost state of the whole ledger: explicit keyed maps in place of the
/// ambient derived-address storage (accounts keyed by owner, requests keyed
/// by recipient — exactly the identity their derived address is built from).
#[verifier::ext_equal]
pub struct LedgerModel {
    /// All existing accounts, keyed by their owner identity.
    pub accounts: Map<Identity, AccountModel>,
    /// All open payment requests, keyed by their recipient identity.
    pub requests: Map<Identity, RequestModel>,
}

impl AccountModel {
    /// Well-formedness of an account stored under key `owner`.
    pub open spec fn wf(self, owner: Identity) -> bool {
        &&& self.owner == owner
        &&& self.friends.len() <= FRIEND_CAPACITY
        &&& 0 <= self.balance <= u64::MAX
        &&& 0 <= self.pending_request_counter <= u64::MAX
    }
}

impl RequestModel {
    /// Well-formedness of a request stored under key `recipient`.
    pub open spec fn wf(self, recipient: Identity) -> bool {
        &&& self.recipient == recipient
        &&& 0 < self.amount <= u64::MAX
        &&& 0 <= self.pending_request_count <= u64::MAX
    }
}

impl LedgerModel {
    /// The ledger invariant: every record is well formed under its own key,
    /// and every open request was created by an existing account.
    pub open spec fn wf(self) -> bool {
        &&& forall|k: Identity| #[trigger] self.accounts.dom().contains(k) ==> self.accounts[k].wf(k)
        &&& forall|k: Identity| #[trigger] self.requests.dom().contains(k) ==> self.requests[k].wf(k)
        &&& forall|k: Identity| #[trigger] self.requests.dom().contains(k)
            ==> self.accounts.dom().contains(k)
    }

    /// The empty ledger: no accounts, no requests.
    pub open spec fn empty() -> LedgerModel {
        LedgerModel { accounts: Map::empty(), requests: Map::empty() }
    }
}

/// The account record a fresh initialization writes for `owner`.
pub open spec fn fresh_account(owner: Identity) -> AccountModel {
    AccountModel { owner, friends: Seq::empty(), balance: 0, pending_request_counter: 0 }
}

/// Transition of `initialize_account`: allocates a zeroed account for the
/// caller, or fails `AlreadyExists` when the caller's derived address is
/// already occupied.
pub open spec fn initialize_account_spec(s: LedgerModel, caller: Identity) -> Result<
    LedgerModel,
    ErrorCode,
> {
    if s.accounts.contains_key(caller) {
        Err(ErrorCode::AlreadyExists)
    } else {
        Ok(LedgerModel { accounts: s.accounts.insert(caller, fresh_account(caller)), ..s })
    }
}

/// Transition of `deposit_funds`: moves `amount` from the caller's external
/// funds into the caller's own account slot.
pub open spec fn deposit_funds_spec(s: LedgerModel, caller: Identity, amount: int) -> Result<
    LedgerModel,
    ErrorCode,
> {
    if amount <= 0 {
        Err(ErrorCode::InvalidAmount)
    } else if !s.accounts.contains_key(caller) {
        Err(ErrorCode::NotFound)
    } else {
        let a = s.accounts[caller];
        Ok(
            LedgerModel {
                accounts: s.accounts.insert(
                    caller,
                    AccountModel { balance: a.balance + amount, ..a },
                ),
                ..s
            },
        )
    }
}

/// Transition of `withdraw_funds`: moves `amount` from the caller's account
/// slot back to the caller's external holding.
pub open spec fn withdraw_funds_spec(s: LedgerModel, caller: Identity, amount: int) -> Result<
    LedgerModel,
    ErrorCode,
> {
    if amount <= 0 {
        Err(ErrorCode::InvalidAmount)
    } else if !s.accounts.contains_key(caller) {
        Err(ErrorCode::NotFound)
    } else if s.accounts[caller].balance < amount {
        Err(ErrorCode::InsufficientFunds)
    } else {
        let a = s.accounts[caller];
        Ok(
            LedgerModel {
                accounts: s.accounts.insert(
                    caller,
                    AccountModel { balance: a.balance - amount, ..a },
                ),
                ..s
            },
        )
    }
}

/// The successor accounts map after moving `amount` from `from` to `to`:
/// the subtraction is written first, the addition second, so the definition
/// is exact also when `from == to` (the balance is then unchanged).
pub open spec fn moved_accounts(
    accounts: Map<Identity, AccountModel>,
    from: Identity,
    to: Identity,
    amount: int,
) -> Map<Identity, AccountModel> {
    let debited = accounts.insert(
        from,
        AccountModel { balance: accounts[from].balance - amount, ..accounts[from] },
    );
    debited.insert(to, AccountModel { balance: debited[to].balance + amount, ..debited[to] })
}

/// Transition of `transfer_funds`: moves `amount` from the caller's account
/// to the recipient's account in one atomic step.
pub open spec fn transfer_funds_spec(
    s: LedgerModel,
    caller: Identity,
    recipient: Identity,
    amount: int,
) -> Result<LedgerModel, ErrorCode> {
    if amount <= 0 {
        Err(ErrorCode::InvalidAmount)
    } else if !s.accounts.contains_key(caller) {
        Err(ErrorCode::NotFound)
    } else if !s.accounts.contains_key(recipient) {
        Err(ErrorCode::NotFound)
    } else if s.accounts[caller].balance < amount {
        Err(ErrorCode::InsufficientFunds)
    } else {
        Ok(LedgerModel { accounts: moved_accounts(s.accounts, caller, recipient, amount), ..s })
    }
}

/// Transition of `add_friend`: appends `identity` to the caller's friend
/// list. Any identity value is accepted and duplicates are not rejected;
/// only the capacity bound is enforced.
pub open spec fn add_friend_spec(s: LedgerModel, caller: Identity, identity: Identity) -> Result<
    LedgerModel,
    ErrorCode,
> {
    if !s.accounts.contains_key(caller) {
        Err(ErrorCode::NotFound)
    } else if s.accounts[caller].friends.len() >= FRIEND_CAPACITY {
        Err(ErrorCode::CapacityExceeded)
    } else {
        let a = s.accounts[caller];
        Ok(
            LedgerModel {
                accounts: s.accounts.insert(
                    caller,
                    AccountModel { friends: a.friends.push(identity), ..a },
                ),
                ..s
            },
        )
    }
}

/// Transition of `new_pending_request`: the caller, as recipient, opens a
/// request asking `sender` for `amount`, snapshotting the caller's request
/// counter into the record and then incrementing the counter — the only
/// transition that increments it.
pub open spec fn new_pending_request_spec(
    s: LedgerModel,
    caller: Identity,
    sender: Identity,
    amount: int,
) -> Result<LedgerModel, ErrorCode> {
    if amount <= 0 {
        Err(ErrorCode::InvalidAmount)
    } else if !s.accounts.contains_key(caller) {
        Err(ErrorCode::NotFound)
    } else if s.requests.contains_key(caller) {
        Err(ErrorCode::AlreadyExists)
    } else {
        let a = s.accounts[caller];
        Ok(
            LedgerModel {
                accounts: s.accounts.insert(
                    caller,
                    AccountModel {
                        pending_request_counter: a.pending_request_counter + 1,
                        ..a
                    },
                ),
                requests: s.requests.insert(
                    caller,
                    RequestModel {
                        sender,
                        recipient: caller,
                        amount,
                        pending_request_count: a.pending_request_counter,
                    },
                ),
            },
        )
    }
}

/// Transition of `accept_request`: the recorded sender pays the recorded
/// amount to the recorded recipient and the request record is deallocated.
/// Only the identity recorded as the request's sender may accept.
pub open spec fn accept_request_spec(s: LedgerModel, caller: Identity, recipient: Identity) -> Result<
    LedgerModel,
    ErrorCode,
> {
    if !s.requests.contains_key(recipient) {
        Err(ErrorCode::NotFound)
    } else {
        let q = s.requests[recipient];
        if caller != q.sender {
            Err(ErrorCode::InvalidSigner)
        } else if !s.accounts.contains_key(q.sender) {
            Err(ErrorCode::NotFound)
        } else if s.accounts[q.sender].balance < q.amount {
            Err(ErrorCode::InsufficientFunds)
        } else {
            Ok(
                LedgerModel {
                    accounts: moved_accounts(s.accounts, q.sender, q.recipient, q.amount),
                    requests: s.requests.remove(recipient),
                },
            )
        }
    }
}

/// Transition of `decline_request`: the request record is deallocated with
/// no balance effect. Only the identity recorded as the request's recipient
/// may decline.
pub open spec fn decline_request_spec(s: LedgerModel, caller: Identity, recipient: Identity) -> Result<
    LedgerModel,
    ErrorCode,
> {
    if !s.requests.contains_key(recipient) {
        Err(ErrorCode::NotFound)
    } else if caller != s.requests[recipient].recipient {
        Err(ErrorCode::InvalidSigner)
    } else {
        Ok(LedgerModel { requests: s.requests.remove(recipient), ..s })
    }
}

} // verus!
