//! What the updates of an invocation do to the accounts, once the ledger
//! makes them

use crate::address::Address;
use crate::error::ProcessError;
use crate::processor::{record_update, Account, AccountUpdate, AccountView, UpdateView};
use crate::records::{lemma_record_written, record_of, Wire};
use crate::state::views;
use crate::wire::zeros;
use vstd::prelude::*;

verus! {

/// The number of bytes that the account has for the data of an update: the
/// bytes that are allocated to it where the update creates it, else the
/// bytes that it holds already.
pub open spec fn room_of(account: AccountView, update: UpdateView) -> int {
    match update.allocation {
        Some(allocation) => allocation.space as int,
        None => account.data.len() as int,
    }
}

/// Whether the account has room for the data of the update, and no more
/// room than this machine can address.
pub open spec fn has_room(account: AccountView, update: UpdateView) -> bool {
    update.data.len() <= room_of(account, update) <= usize::MAX
}

/// Whether the update is one of an account among `accounts` that has room for it.
pub open spec fn update_applies(accounts: Seq<AccountView>, update: UpdateView) -> bool {
    update.account < accounts.len() && has_room(accounts[update.account as int], update)
}

/// The account after an update: where the update creates the account, the
/// program owns it and it holds as many zero bytes as were allocated; then
/// the data of the update stands at the front of what the account holds.
pub open spec fn updated(
    account: AccountView,
    program_id: Seq<u8>,
    update: UpdateView,
) -> AccountView {
    match update.allocation {
        Some(allocation) => AccountView {
            owner: program_id,
            data: update.data + zeros(allocation.space as nat).skip(update.data.len() as int),
            ..account
        },
        None => AccountView {
            data: update.data + account.data.skip(update.data.len() as int),
            ..account
        },
    }
}

/// The accounts after one update; an update that does not apply changes nothing.
pub open spec fn committed_one(
    accounts: Seq<AccountView>,
    program_id: Seq<u8>,
    update: UpdateView,
) -> Seq<AccountView> {
    if update_applies(accounts, update) {
        accounts.update(
            update.account as int,
            updated(accounts[update.account as int], program_id, update),
        )
    } else {
        accounts
    }
}

/// The accounts after the updates, made one after the other.
pub open spec fn committed(
    accounts: Seq<AccountView>,
    program_id: Seq<u8>,
    updates: Seq<UpdateView>,
) -> Seq<AccountView>
    decreases updates.len(),
{
    if updates.len() == 0 {
        accounts
    } else {
        committed_one(
            committed(accounts, program_id, updates.drop_last()),
            program_id,
            updates.last(),
        )
    }
}

fn zero_storage(space: usize) -> (storage: Vec<u8>)
    ensures
        storage@ == zeros(space as nat),
{
    let mut storage: Vec<u8> = Vec::new();
    while storage.len() < space
        invariant
            storage@.len() <= space,
            forall|i: int| 0 <= i < storage@.len() ==> storage@[i] == 0u8,
        decreases space - storage@.len(),
    {
        storage.push(0);
    }
    assert(storage@ =~= zeros(space as nat));
    storage
}

/// The data of an account after `data` was written to the front of `storage`.
fn written(data: &Vec<u8>, storage: &Vec<u8>) -> (result: Vec<u8>)
    requires
        data@.len() <= storage@.len(),
    ensures
        result@ == data@ + storage@.skip(data@.len() as int),
{
    let mut result: Vec<u8> = Vec::new();
    let mut i: usize = 0;
    while i < storage.len()
        invariant
            i <= storage@.len(),
            data@.len() <= storage@.len(),
            result@.len() == i,
            forall|j: int|
                0 <= j < i ==> result@[j] == if j < data@.len() {
                    data@[j]
                } else {
                    storage@[j]
                },
        decreases storage@.len() - i,
    {
        if i < data.len() {
            result.push(data[i]);
        } else {
            result.push(storage[i]);
        }
        i += 1;
    }
    assert(result@ =~= data@ + storage@.skip(data@.len() as int));
    result
}

/// The account after the update, if the account has room for the data of the update.
pub fn update_account(account: &Account, program_id: &Address, update: &AccountUpdate) -> (result:
    Option<Account>)
    ensures
        result is Some <==> has_room(account@, update@),
        result matches Some(next) ==> next@ == updated(account@, program_id@, update@),
{
    match &update.allocation {
        Some(allocation) => {
            if allocation.space > usize::MAX as u64
                || update.data.len() > allocation.space as usize {
                return None;
            }
            let storage = zero_storage(allocation.space as usize);
            Some(
                Account {
                    key: account.key,
                    owner: *program_id,
                    is_signer: account.is_signer,
                    data: written(&update.data, &storage),
                },
            )
        },
        None => {
            if update.data.len() > account.data.len() {
                return None;
            }
            Some(
                Account {
                    key: account.key,
                    owner: account.owner,
                    is_signer: account.is_signer,
                    data: written(&update.data, &account.data),
                },
            )
        },
    }
}

/// Makes the updates of an invocation, one after the other, as the ledger
/// does when the invocation succeeds. An update that does not apply is left
/// out; the result says whether all of them applied.
pub fn commit(
    accounts: &mut Vec<Account>,
    program_id: &Address,
    updates: &Vec<AccountUpdate>,
) -> (all: bool)
    ensures
        views(final(accounts)@) == committed(views(old(accounts)@), program_id@, views(updates@)),
        all == forall|i: int|
            0 <= i < updates@.len() ==> update_applies(
                #[trigger] committed(
                    views(old(accounts)@),
                    program_id@,
                    views(updates@).take(i),
                ),
                updates@[i]@,
            ),
{
    let mut all = true;
    let mut n: usize = 0;
    let ghost journal = views(updates@);
    assert(journal.take(0) =~= Seq::empty());
    while n < updates.len()
        invariant
            n <= updates@.len(),
            journal == views(updates@),
            views(accounts@) == committed(
                views(old(accounts)@),
                program_id@,
                journal.take(n as int),
            ),
            all == forall|i: int|
                0 <= i < n ==> update_applies(
                    #[trigger] committed(views(old(accounts)@), program_id@, journal.take(i)),
                    updates@[i]@,
                ),
        decreases updates@.len() - n,
    {
        let update = &updates[n];
        let ghost before = views(accounts@);
        let mut applied = false;
        if update.account < accounts.len() {
            match update_account(&accounts[update.account], program_id, update) {
                Some(next) => {
                    accounts.set(update.account, next);
                    applied = true;
                },
                None => {},
            }
        }
        if !applied {
            all = false;
        }
        proof {
            assert(journal.take(n + 1).drop_last() =~= journal.take(n as int));
            assert(journal.take(n + 1).last() == update@);
            assert(applied == update_applies(before, update@));
            assert(views(accounts@) =~= committed_one(before, program_id@, update@));
        }
        n += 1;
    }
    assert(journal.take(updates@.len() as int) =~= journal);
    all
}

/// Where a record is written to an account that has room for it, the account
/// holds that record afterwards.
pub proof fn lemma_update_holds_record<T: Wire>(
    account: AccountView,
    program_id: Seq<u8>,
    update: UpdateView,
    record: T::V,
)
    requires
        record_update::<T>(
            update.account,
            update.allocation,
            record,
            room_of(account, update),
        ) == Ok::<UpdateView, ProcessError>(update),
    ensures
        record_of::<T>(updated(account, program_id, update).data) == Some(record),
        updated(account, program_id, update).data.len() == room_of(account, update),
{
    let data = updated(account, program_id, update).data;
    lemma_record_written::<T>(record, data.skip(update.data.len() as int));
    assert(data =~= update.data + data.skip(update.data.len() as int));
}

} // verus!
