//! Laws of the ledger, each proved once over the ghost model.
//!
//! Every executable operation of `crate::ledger::Ledger` ensures that its
//! effect equals its transition function from `crate::model`, and that an
//! error leaves the state untouched. The proof functions here therefore
//! state the laws of the system purely over `LedgerModel`: whatever they
//! say of a transition holds of the executable operation as well.

use vstd::prelude::*;

use crate::address::Identity;
use crate::errors::ErrorCode;
use crate::model::{
    accept_request_spec, add_friend_spec, decline_request_spec, deposit_funds_spec, fresh_account,
    initialize_account_spec, new_pending_request_spec, transfer_funds_spec, withdraw_funds_spec,
    AccountModel, LedgerModel, RequestModel, FRIEND_CAPACITY,
};

verus! {

/// Every funds-taking transition rejects any amount that is not positive
/// with `InvalidAmount`; since an error transition carries no successor
/// state, nothing changes.
pub proof fn lemma_nonpositive_amount_rejected(
    s: LedgerModel,
    caller: Identity,
    recipient: Identity,
    sender: Identity,
    amount: int,
)
    requires
        amount <= 0,
    ensures
        deposit_funds_spec(s, caller, amount) == Err::<LedgerModel, ErrorCode>(
            ErrorCode::InvalidAmount,
        ),
        withdraw_funds_spec(s, caller, amount) == Err::<LedgerModel, ErrorCode>(
            ErrorCode::InvalidAmount,
        ),
        transfer_funds_spec(s, caller, recipient, amount) == Err::<LedgerModel, ErrorCode>(
            ErrorCode::InvalidAmount,
        ),
        new_pending_request_spec(s, caller, sender, amount) == Err::<LedgerModel, ErrorCode>(
            ErrorCode::InvalidAmount,
        ),
{
}

/// Initialization is idempotent-rejecting: where the caller already owns an
/// account it fails `AlreadyExists` (so the existing record is unchanged),
/// and a first successful initialization writes a zeroed record whose
/// re-initialization fails `AlreadyExists` in turn.
pub proof fn lemma_initialize_account_idempotent_rejecting(s: LedgerModel, caller: Identity)
    ensures
        s.accounts.contains_key(caller) ==> initialize_account_spec(s, caller) == Err::<
            LedgerModel,
            ErrorCode,
        >(ErrorCode::AlreadyExists),
        !s.accounts.contains_key(caller) ==> ({
            let t = initialize_account_spec(s, caller)->Ok_0;
            &&& initialize_account_spec(s, caller) is Ok
            &&& t.accounts[caller] == fresh_account(caller)
            &&& initialize_account_spec(t, caller) == Err::<LedgerModel, ErrorCode>(
                ErrorCode::AlreadyExists,
            )
        }),
{
}

/// A valid deposit followed by a withdrawal of the same amount returns the
/// ledger to exactly its pre-deposit state.
pub proof fn lemma_deposit_withdraw_round_trip(s: LedgerModel, caller: Identity, amount: int)
    requires
        s.wf(),
        s.accounts.contains_key(caller),
        amount > 0,
    ensures
        deposit_funds_spec(s, caller, amount) is Ok,
        withdraw_funds_spec(deposit_funds_spec(s, caller, amount)->Ok_0, caller, amount) == Ok::<
            LedgerModel,
            ErrorCode,
        >(s),
{
    let s1 = deposit_funds_spec(s, caller, amount)->Ok_0;
    let s2 = withdraw_funds_spec(s1, caller, amount)->Ok_0;
    assert(s2.accounts[caller] =~= s.accounts[caller]);
    assert(s2.accounts =~= s.accounts);
    assert(s2 =~= s);
}

/// A valid transfer debits the caller and credits the recipient by exactly
/// the transferred amount in one step, touching nothing else: every other
/// account, the non-balance fields of both accounts, and all open requests
/// are unchanged.
pub proof fn lemma_transfer_funds_moves_amount(
    s: LedgerModel,
    caller: Identity,
    recipient: Identity,
    amount: int,
)
    requires
        s.accounts.contains_key(caller),
        s.accounts.contains_key(recipient),
        caller != recipient,
        amount > 0,
        s.accounts[caller].balance >= amount,
    ensures
        transfer_funds_spec(s, caller, recipient, amount) is Ok,
        ({
            let t = transfer_funds_spec(s, caller, recipient, amount)->Ok_0;
            &&& t.accounts[caller] == (AccountModel {
                balance: s.accounts[caller].balance - amount,
                ..s.accounts[caller]
            })
            &&& t.accounts[recipient] == (AccountModel {
                balance: s.accounts[recipient].balance + amount,
                ..s.accounts[recipient]
            })
            &&& t.accounts.dom() == s.accounts.dom()
            &&& forall|k: Identity|
                #![auto]
                s.accounts.contains_key(k) && k != caller && k != recipient ==> t.accounts[k]
                    == s.accounts[k]
            &&& t.requests == s.requests
        }),
{
    let t = transfer_funds_spec(s, caller, recipient, amount)->Ok_0;
    assert(t.accounts.dom() =~= s.accounts.dom());
}

/// A transfer whose amount exceeds the caller's balance fails
/// `InsufficientFunds`; since an error transition carries no successor
/// state, both balances are unchanged — there is no partial transfer.
pub proof fn lemma_transfer_funds_insufficient(
    s: LedgerModel,
    caller: Identity,
    recipient: Identity,
    amount: int,
)
    requires
        s.accounts.contains_key(caller),
        s.accounts.contains_key(recipient),
        amount > 0,
        s.accounts[caller].balance < amount,
    ensures
        transfer_funds_spec(s, caller, recipient, amount) == Err::<LedgerModel, ErrorCode>(
            ErrorCode::InsufficientFunds,
        ),
{
}

/// Opening a request increments the recipient's request counter by exactly
/// one, records the counter's prior value as the request's sequence number,
/// and occupies the recipient's single request slot: a second request for
/// the same recipient — whatever its sender and amount — fails
/// `AlreadyExists` until the first is resolved.
pub proof fn lemma_new_pending_request_increments_counter(
    s: LedgerModel,
    caller: Identity,
    sender: Identity,
    amount: int,
    second_sender: Identity,
    second_amount: int,
)
    requires
        s.wf(),
        s.accounts.contains_key(caller),
        !s.requests.contains_key(caller),
        amount > 0,
        second_amount > 0,
    ensures
        new_pending_request_spec(s, caller, sender, amount) is Ok,
        ({
            let t = new_pending_request_spec(s, caller, sender, amount)->Ok_0;
            &&& t.accounts[caller].pending_request_counter == s.accounts[caller].pending_request_counter
                + 1
            &&& t.requests[caller] == (RequestModel {
                sender,
                recipient: caller,
                amount,
                pending_request_count: s.accounts[caller].pending_request_counter,
            })
            &&& new_pending_request_spec(t, caller, second_sender, second_amount) == Err::<
                LedgerModel,
                ErrorCode,
            >(ErrorCode::AlreadyExists)
        }),
{
}

/// Accepting a request, called by the recorded sender, is exactly a
/// transfer of the recorded amount from the recorded sender to the recorded
/// recipient followed by deallocation of the request — and it fails exactly
/// where that transfer fails.
pub proof fn lemma_accept_request_is_transfer_then_close(s: LedgerModel, recipient: Identity)
    requires
        s.wf(),
        s.requests.contains_key(recipient),
    ensures
        ({
            let q = s.requests[recipient];
            match transfer_funds_spec(s, q.sender, recipient, q.amount) {
                Ok(t) => accept_request_spec(s, q.sender, recipient) == Ok::<
                    LedgerModel,
                    ErrorCode,
                >(LedgerModel { accounts: t.accounts, requests: t.requests.remove(recipient) }),
                Err(e) => accept_request_spec(s, q.sender, recipient) == Err::<
                    LedgerModel,
                    ErrorCode,
                >(e),
            }
        }),
{
    let q = s.requests[recipient];
    assert(q.wf(recipient));
    assert(s.accounts.contains_key(recipient));
}

/// Declining a request, called by the recorded recipient, deallocates the
/// request with zero balance change: the accounts map is exactly the old
/// one.
pub proof fn lemma_decline_request_closes_without_transfer(s: LedgerModel, recipient: Identity)
    requires
        s.wf(),
        s.requests.contains_key(recipient),
    ensures
        decline_request_spec(s, recipient, recipient) == Ok::<LedgerModel, ErrorCode>(
            LedgerModel { accounts: s.accounts, requests: s.requests.remove(recipient) },
        ),
{
    assert(s.requests[recipient].wf(recipient));
}

/// The friend list accepts entries while it holds fewer than
/// `FRIEND_CAPACITY` of them and fails `CapacityExceeded` once full; the
/// appended entry is not checked against the existing entries, so a
/// duplicate identity is accepted like any other.
pub proof fn lemma_add_friend_capacity(s: LedgerModel, caller: Identity, identity: Identity)
    requires
        s.accounts.contains_key(caller),
    ensures
        s.accounts[caller].friends.len() < FRIEND_CAPACITY ==> ({
            let t = add_friend_spec(s, caller, identity)->Ok_0;
            &&& add_friend_spec(s, caller, identity) is Ok
            &&& t.accounts[caller].friends == s.accounts[caller].friends.push(identity)
        }),
        s.accounts[caller].friends.len() >= FRIEND_CAPACITY ==> add_friend_spec(s, caller, identity)
            == Err::<LedgerModel, ErrorCode>(ErrorCode::CapacityExceeded),
{
}

} // verus!
