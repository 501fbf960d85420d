//! The executable ledger: explicit keyed maps of account and request
//! records, with every operation verified against its transition in
//! `crate::model`.
//!
//! Accounts live at `derive_address(Namespace::CashAccount, owner)` and
//! requests at `derive_address(Namespace::PendingRequest, recipient)`; since
//! the derivation is injective per namespace, the store is realized as two
//! maps keyed directly by the identity each address is derived from.

use std::collections::HashMap;

use vstd::prelude::*;

use crate::address::Identity;
use crate::errors::ErrorCode;
use crate::model::{
    accept_request_spec, add_friend_spec, deposit_funds_spec, decline_request_spec,
    initialize_account_spec, moved_accounts, new_pending_request_spec, transfer_funds_spec,
    withdraw_funds_spec, AccountModel, LedgerModel, RequestModel, FRIEND_CAPACITY,
};

verus! {

broadcast use vstd::std_specs::hash::group_hash_axioms;

/// One per-identity account record.
#[derive(Debug)]
pub struct CashAccount {
    /// The controlling identity; immutable after creation.
    pub owner: Identity,
    /// Append-only list of befriended identities, at most `FRIEND_CAPACITY`
    /// entries; duplicates permitted.
    pub friends: Vec<Identity>,
    /// Native-unit quantity held by this record's storage slot.
    pub balance: u64,
    /// Number of requests this identity has originated as recipient.
    pub pending_request_counter: u64,
}

/// One open payment request, keyed by its recipient.
#[derive(Clone, Copy, Debug)]
pub struct PendingRequest {
    /// The identity expected to pay.
    pub sender: Identity,
    /// The identity that created the request and will receive the funds.
    pub recipient: Identity,
    /// The requested quantity; always positive.
    pub amount: u64,
    /// Snapshot of the recipient's request counter at creation time.
    pub pending_request_count: u64,
}

impl View for CashAccount {
    type V = AccountModel;

    open spec fn view(&self) -> AccountModel {
        AccountModel {
            owner: self.owner,
            friends: self.friends@,
            balance: self.balance as int,
            pending_request_counter: self.pending_request_counter as int,
        }
    }
}

impl View for PendingRequest {
    type V = RequestModel;

    open spec fn view(&self) -> RequestModel {
        RequestModel {
            sender: self.sender,
            recipient: self.recipient,
            amount: self.amount as int,
            pending_request_count: self.pending_request_count as int,
        }
    }
}

/// The whole persisted state: every account and every open request, each
/// kind keyed by the identity its storage address is derived from.
pub struct Ledger {
    accounts: HashMap<Identity, CashAccount>,
    requests: HashMap<Identity, PendingRequest>,
}

impl View for Ledger {
    type V = LedgerModel;

    closed spec fn view(&self) -> LedgerModel {
        LedgerModel {
            accounts: Map::new(
                |k: Identity| self.accounts@.contains_key(k),
                |k: Identity| self.accounts@[k]@,
            ),
            requests: Map::new(
                |k: Identity| self.requests@.contains_key(k),
                |k: Identity| self.requests@[k]@,
            ),
        }
    }
}

impl Ledger {
    /// Well-formedness: the ledger invariant of the model holds of the view.
    pub open spec fn wf(&self) -> bool {
        self@.wf()
    }

    /// Creates an empty ledger: no accounts, no open requests.
    pub fn new() -> (r: Ledger)
        ensures
            r.wf(),
            r@ == LedgerModel::empty(),
    {
        let r = Ledger { accounts: HashMap::new(), requests: HashMap::new() };
        proof {
            assert(r@.accounts =~= Map::<Identity, AccountModel>::empty());
            assert(r@.requests =~= Map::<Identity, RequestModel>::empty());
            assert(r@ =~= LedgerModel::empty());
        }
        r
    }

    /// Allocates a new zeroed account owned by `caller`; fails
    /// `AlreadyExists` when the caller already owns one.
    pub fn initialize_account(&mut self, caller: Identity) -> (r: Result<(), ErrorCode>)
        requires
            old(self).wf(),
        ensures
            final(self).wf(),
            match initialize_account_spec(old(self)@, caller) {
                Ok(m) => r == Ok::<(), ErrorCode>(()) && final(self)@ == m,
                Err(e) => r == Err::<(), ErrorCode>(e) && final(self)@ == old(self)@,
            },
    {
        if self.accounts.contains_key(&caller) {
            return Err(ErrorCode::AlreadyExists);
        }
        let account = CashAccount {
            owner: caller,
            friends: Vec::new(),
            balance: 0,
            pending_request_counter: 0,
        };
        self.accounts.insert(caller, account);
        proof {
            let m = initialize_account_spec(old(self)@, caller)->Ok_0;
            assert(self@.accounts =~= m.accounts);
            assert(self@.requests =~= m.requests);
            assert(self@ =~= m);
        }
        Ok(())
    }

    /// Moves `amount` from the caller's external funds into the caller's own
    /// account slot; fails `InvalidAmount` on a zero amount and `NotFound`
    /// when the caller owns no account.
    pub fn deposit_funds(&mut self, caller: Identity, amount: u64) -> (r: Result<(), ErrorCode>)
        requires
            old(self).wf(),
            old(self)@.accounts.contains_key(caller) && amount > 0 ==> old(
                self,
            )@.accounts[caller].balance + amount <= u64::MAX,
        ensures
            final(self).wf(),
            match deposit_funds_spec(old(self)@, caller, amount as int) {
                Ok(m) => r == Ok::<(), ErrorCode>(()) && final(self)@ == m,
                Err(e) => r == Err::<(), ErrorCode>(e) && final(self)@ == old(self)@,
            },
    {
        if amount == 0 {
            return Err(ErrorCode::InvalidAmount);
        }
        if !self.accounts.contains_key(&caller) {
            return Err(ErrorCode::NotFound);
        }
        let mut account = self.accounts.remove(&caller).unwrap();
        account.balance = account.balance + amount;
        self.accounts.insert(caller, account);
        proof {
            let m = deposit_funds_spec(old(self)@, caller, amount as int)->Ok_0;
            assert(self@.accounts =~= m.accounts);
            assert(self@.requests =~= m.requests);
            assert(self@ =~= m);
        }
        Ok(())
    }

    /// Moves `amount` from the caller's account slot back to the caller's
    /// external holding; fails `InsufficientFunds` when the account holds
    /// less than `amount`, leaving the balance untouched.
    pub fn withdraw_funds(&mut self, caller: Identity, amount: u64) -> (r: Result<(), ErrorCode>)
        requires
            old(self).wf(),
        ensures
            final(self).wf(),
            match withdraw_funds_spec(old(self)@, caller, amount as int) {
                Ok(m) => r == Ok::<(), ErrorCode>(()) && final(self)@ == m,
                Err(e) => r == Err::<(), ErrorCode>(e) && final(self)@ == old(self)@,
            },
    {
        if amount == 0 {
            return Err(ErrorCode::InvalidAmount);
        }
        let balance = match self.accounts.get(&caller) {
            None => {
                return Err(ErrorCode::NotFound);
            },
            Some(account) => account.balance,
        };
        if balance < amount {
            return Err(ErrorCode::InsufficientFunds);
        }
        let mut account = self.accounts.remove(&caller).unwrap();
        account.balance = account.balance - amount;
        self.accounts.insert(caller, account);
        proof {
            let m = withdraw_funds_spec(old(self)@, caller, amount as int)->Ok_0;
            assert(self@.accounts =~= m.accounts);
            assert(self@.requests =~= m.requests);
            assert(self@ =~= m);
        }
        Ok(())
    }

    /// Debits `amount` from the account of `from` and credits it to the
    /// account of `to`, in that order, so that a transfer to oneself leaves
    /// the balance unchanged. Shared final step of `transfer_funds` and
    /// `accept_request`.
    fn move_funds(&mut self, from: Identity, to: Identity, amount: u64)
        requires
            old(self).wf(),
            old(self)@.accounts.contains_key(from),
            old(self)@.accounts.contains_key(to),
            old(self)@.accounts[from].balance >= amount,
            from != to ==> old(self)@.accounts[to].balance + amount <= u64::MAX,
        ensures
            final(self)@ == (LedgerModel {
                accounts: moved_accounts(old(self)@.accounts, from, to, amount as int),
                ..old(self)@
            }),
    {
        let mut debited = self.accounts.remove(&from).unwrap();
        debited.balance = debited.balance - amount;
        self.accounts.insert(from, debited);
        let mut credited = self.accounts.remove(&to).unwrap();
        credited.balance = credited.balance + amount;
        self.accounts.insert(to, credited);
        proof {
            let m = LedgerModel {
                accounts: moved_accounts(old(self)@.accounts, from, to, amount as int),
                ..old(self)@
            };
            assert(self@.accounts =~= m.accounts);
            assert(self@.requests =~= m.requests);
            assert(self@ =~= m);
        }
    }

    /// Moves `amount` from the caller's account to the recipient's account
    /// in one atomic step: on any failure — nonpositive amount, either
    /// account missing, or insufficient funds — both balances are unchanged.
    pub fn transfer_funds(
        &mut self,
        caller: Identity,
        recipient: Identity,
        amount: u64,
    ) -> (r: Result<(), ErrorCode>)
        requires
            old(self).wf(),
            ({
                let s = old(self)@;
                s.accounts.contains_key(caller) && s.accounts.contains_key(recipient) && caller
                    != recipient && s.accounts[caller].balance >= amount
                    ==> s.accounts[recipient].balance + amount <= u64::MAX
            }),
        ensures
            final(self).wf(),
            match transfer_funds_spec(old(self)@, caller, recipient, amount as int) {
                Ok(m) => r == Ok::<(), ErrorCode>(()) && final(self)@ == m,
                Err(e) => r == Err::<(), ErrorCode>(e) && final(self)@ == old(self)@,
            },
    {
        if amount == 0 {
            return Err(ErrorCode::InvalidAmount);
        }
        let caller_balance = match self.accounts.get(&caller) {
            None => {
                return Err(ErrorCode::NotFound);
            },
            Some(account) => account.balance,
        };
        if !self.accounts.contains_key(&recipient) {
            return Err(ErrorCode::NotFound);
        }
        if caller_balance < amount {
            return Err(ErrorCode::InsufficientFunds);
        }
        self.move_funds(caller, recipient, amount);
        Ok(())
    }

    /// Appends `identity` to the caller's friend list. Any identity value is
    /// accepted — no dedup check, no existence check on `identity` — but the
    /// list is refused once it holds `FRIEND_CAPACITY` entries.
    pub fn add_friend(&mut self, caller: Identity, identity: Identity) -> (r: Result<(), ErrorCode>)
        requires
            old(self).wf(),
        ensures
            final(self).wf(),
            match add_friend_spec(old(self)@, caller, identity) {
                Ok(m) => r == Ok::<(), ErrorCode>(()) && final(self)@ == m,
                Err(e) => r == Err::<(), ErrorCode>(e) && final(self)@ == old(self)@,
            },
    {
        let friend_count = match self.accounts.get(&caller) {
            None => {
                return Err(ErrorCode::NotFound);
            },
            Some(account) => account.friends.len(),
        };
        if friend_count >= FRIEND_CAPACITY {
            return Err(ErrorCode::CapacityExceeded);
        }
        let mut account = self.accounts.remove(&caller).unwrap();
        account.friends.push(identity);
        self.accounts.insert(caller, account);
        proof {
            let m = add_friend_spec(old(self)@, caller, identity)->Ok_0;
            assert(self@.accounts =~= m.accounts);
            assert(self@.requests =~= m.requests);
            assert(self@ =~= m);
        }
        Ok(())
    }

    /// The caller, as recipient, opens a request asking `sender` for
    /// `amount`. The request snapshots the caller's request counter and the
    /// counter is then incremented — the only operation that increments it.
    /// The request slot is derived from the recipient alone, so a second
    /// open request for the same recipient fails `AlreadyExists`.
    pub fn new_pending_request(
        &mut self,
        caller: Identity,
        sender: Identity,
        amount: u64,
    ) -> (r: Result<(), ErrorCode>)
        requires
            old(self).wf(),
            old(self)@.accounts.contains_key(caller) ==> old(
                self,
            )@.accounts[caller].pending_request_counter < u64::MAX,
        ensures
            final(self).wf(),
            match new_pending_request_spec(old(self)@, caller, sender, amount as int) {
                Ok(m) => r == Ok::<(), ErrorCode>(()) && final(self)@ == m,
                Err(e) => r == Err::<(), ErrorCode>(e) && final(self)@ == old(self)@,
            },
    {
        if amount == 0 {
            return Err(ErrorCode::InvalidAmount);
        }
        if !self.accounts.contains_key(&caller) {
            return Err(ErrorCode::NotFound);
        }
        if self.requests.contains_key(&caller) {
            return Err(ErrorCode::AlreadyExists);
        }
        let mut account = self.accounts.remove(&caller).unwrap();
        let sequence = account.pending_request_counter;
        account.pending_request_counter = sequence + 1;
        self.accounts.insert(caller, account);
        let request = PendingRequest {
            sender,
            recipient: caller,
            amount,
            pending_request_count: sequence,
        };
        self.requests.insert(caller, request);
        proof {
            let m = new_pending_request_spec(old(self)@, caller, sender, amount as int)->Ok_0;
            assert(self@.accounts =~= m.accounts);
            assert(self@.requests =~= m.requests);
            assert(self@ =~= m);
        }
        Ok(())
    }

    /// Resolves the open request of `recipient`: the recorded sender pays
    /// the recorded amount to the recipient and the request record is
    /// deallocated. Only the identity recorded as the request's sender may
    /// accept; the transfer aborts with no state change when the sender owns
    /// no account or holds less than the recorded amount.
    pub fn accept_request(&mut self, caller: Identity, recipient: Identity) -> (r: Result<(), ErrorCode>)
        requires
            old(self).wf(),
            ({
                let s = old(self)@;
                s.requests.contains_key(recipient) && s.accounts.contains_key(
                    s.requests[recipient].sender,
                ) && s.requests[recipient].sender != recipient
                    ==> s.accounts[recipient].balance + s.requests[recipient].amount <= u64::MAX
            }),
        ensures
            final(self).wf(),
            match accept_request_spec(old(self)@, caller, recipient) {
                Ok(m) => r == Ok::<(), ErrorCode>(()) && final(self)@ == m,
                Err(e) => r == Err::<(), ErrorCode>(e) && final(self)@ == old(self)@,
            },
    {
        let (sender, amount) = match self.requests.get(&recipient) {
            None => {
                return Err(ErrorCode::NotFound);
            },
            Some(request) => (request.sender, request.amount),
        };
        if caller != sender {
            return Err(ErrorCode::InvalidSigner);
        }
        let sender_balance = match self.accounts.get(&sender) {
            None => {
                return Err(ErrorCode::NotFound);
            },
            Some(account) => account.balance,
        };
        if sender_balance < amount {
            return Err(ErrorCode::InsufficientFunds);
        }
        self.move_funds(sender, recipient, amount);
        self.requests.remove(&recipient);
        proof {
            let m = accept_request_spec(old(self)@, caller, recipient)->Ok_0;
            assert(self@.accounts =~= m.accounts);
            assert(self@.requests =~= m.requests);
            assert(self@ =~= m);
        }
        Ok(())
    }

    /// Closes the open request of `recipient` with no balance effect; the
    /// record is deallocated. Only the identity recorded as the request's
    /// recipient may decline.
    pub fn decline_request(&mut self, caller: Identity, recipient: Identity) -> (r: Result<(), ErrorCode>)
        requires
            old(self).wf(),
        ensures
            final(self).wf(),
            match decline_request_spec(old(self)@, caller, recipient) {
                Ok(m) => r == Ok::<(), ErrorCode>(()) && final(self)@ == m,
                Err(e) => r == Err::<(), ErrorCode>(e) && final(self)@ == old(self)@,
            },
    {
        let request_recipient = match self.requests.get(&recipient) {
            None => {
                return Err(ErrorCode::NotFound);
            },
            Some(request) => request.recipient,
        };
        if caller != request_recipient {
            return Err(ErrorCode::InvalidSigner);
        }
        self.requests.remove(&recipient);
        proof {
            let m = decline_request_spec(old(self)@, caller, recipient)->Ok_0;
            assert(self@.accounts =~= m.accounts);
            assert(self@.requests =~= m.requests);
            assert(self@ =~= m);
        }
        Ok(())
    }

    /// Returns the account record of `identity`, or `None` when that
    /// identity owns no account.
    pub fn get_account(&self, identity: Identity) -> (r: Option<&CashAccount>)
        ensures
            match r {
                Some(account) => self@.accounts.contains_key(identity) && account@
                    == self@.accounts[identity],
                None => !self@.accounts.contains_key(identity),
            },
    {
        self.accounts.get(&identity)
    }

    /// Returns the open request whose recipient is `recipient`, or `None`
    /// when that slot is empty.
    pub fn get_request(&self, recipient: Identity) -> (r: Option<&PendingRequest>)
        ensures
            match r {
                Some(request) => self@.requests.contains_key(recipient) && request@
                    == self@.requests[recipient],
                None => !self@.requests.contains_key(recipient),
            },
    {
        self.requests.get(&recipient)
    }
}

} // verus!
