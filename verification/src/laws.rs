//! What holds of every invocation, whatever the identity program answers and
//! whatever addresses the ledger derives

use crate::address::{
    channel_seeds, direct_channel_name_spec, notifications_account_seeds, program_address,
};
use crate::error::{ProcessError, SolariumError};
use crate::instruction::{instruction_of, lemma_instruction_read, InstructionView};
use crate::journal::{
    committed, lemma_update_holds_record, room_of, update_applies, updated,
};
use crate::processor::{
    accepts, add_notification_spec, add_to_channel_places, add_to_channel_spec, address_failure,
    authority_failure, cek_address, cek_authority_failure, cek_channel_failure,
    change_cek_list_spec, change_user_details_spec, create_cek_account_spec,
    create_notifications_spec, create_user_details_spec, direct_channel_creator_places,
    direct_channel_invitee_places, initialize_channel_places, initialize_channel_spec,
    initialize_direct_channel_spec, instruction_outcome, lemma_cek_account_size, post_spec,
    process_instruction_outcome, rent_failure, user_details_address, AccountView,
    CekListChangeView, CekPlaces, DirectChannelFactsView, UpdateView, UserDetailsChangeView,
};
use crate::records::record_of;
use crate::state::{
    push_bounded, CEKAccountDataV2, CEKAccountView, ChannelData,
    EncryptedKeyView, MessageView, NotificationType, NotificationView, Notifications,
    UserDetails,
    UserDetailsView,
};
use vstd::prelude::*;

verus! {

/// An account that holds an initialized channel holds at least one byte.
pub proof fn lemma_initialized_channel_is_populated(data: Seq<u8>)
    requires
        record_of::<ChannelData>(data) matches Some(channel) && channel.is_initialized(),
    ensures
        data.len() > 0,
{
}

/// An account that holds initialized user details holds at least one byte.
pub proof fn lemma_initialized_user_details_are_populated(data: Seq<u8>)
    requires
        record_of::<UserDetails>(data) matches Some(details) && details.is_initialized(),
    ensures
        data.len() > 0,
{
}

/// An account that holds initialized notifications holds at least one byte.
pub proof fn lemma_initialized_notifications_are_populated(data: Seq<u8>)
    requires
        record_of::<Notifications>(data) matches Some(notifications)
            && notifications.is_initialized(),
    ensures
        data.len() > 0,
{
}

/// A channel is created once: `InitializeChannel` on an account that holds an
/// initialized channel fails, and where the rent rules are in place and the
/// account is the program's, it fails with `AlreadyInUse`.
pub proof fn lemma_channel_created_once(
    program_id: Seq<u8>,
    accounts: Seq<AccountView>,
    name: Seq<char>,
    cek: EncryptedKeyView,
    accepted: bool,
    cek_address: Option<(Seq<u8>, u8)>,
)
    requires
        accounts.len() >= 2,
        record_of::<ChannelData>(accounts[1].data) matches Some(channel)
            && channel.is_initialized(),
    ensures
        initialize_channel_spec(program_id, accounts, name, cek, accepted, cek_address) is Err,
        accounts.len() >= 7 && rent_failure(accounts[5]) is None && accounts[1].owner
            == program_id ==> initialize_channel_spec(
            program_id,
            accounts,
            name,
            cek,
            accepted,
            cek_address,
        ) == Err::<Seq<UpdateView>, ProcessError>(
            ProcessError::Custom(SolariumError::AlreadyInUse),
        ),
{
}

/// A direct channel is created once: `InitializeDirectChannel` on an account
/// that holds data fails, and where the rent rules are in place and the
/// account has the address of the channel between the two DIDs, it fails
/// with `AlreadyInUse`.
pub proof fn lemma_direct_channel_created_once(
    program_id: Seq<u8>,
    accounts: Seq<AccountView>,
    creator_cek: EncryptedKeyView,
    invitee_cek: EncryptedKeyView,
    accepted: bool,
    facts: DirectChannelFactsView,
)
    requires
        accounts.len() >= 2,
        accounts[1].data.len() > 0,
    ensures
        initialize_direct_channel_spec(
            program_id,
            accounts,
            creator_cek,
            invitee_cek,
            accepted,
            facts,
        ) is Err,
        accounts.len() >= 9 && rent_failure(accounts[7]) is None && address_failure(
            facts.channel_address,
            accounts[1].key,
        ) is None ==> initialize_direct_channel_spec(
            program_id,
            accounts,
            creator_cek,
            invitee_cek,
            accepted,
            facts,
        ) == Err::<Seq<UpdateView>, ProcessError>(
            ProcessError::Custom(SolariumError::AlreadyInUse),
        ),
{
}

/// A cek account is created once: on an account that holds data the creation
/// fails with `AccountAlreadyInitialized`, whoever asks and for whichever
/// DID and channel.
pub proof fn lemma_cek_account_created_once(
    accounts: Seq<AccountView>,
    at: CekPlaces,
    cek: EncryptedKeyView,
    derived: Option<(Seq<u8>, u8)>,
)
    requires
        at.cek_account < accounts.len(),
        accounts[at.cek_account as int].data.len() > 0,
    ensures
        create_cek_account_spec(accounts, at, cek, derived) == Err::<UpdateView, ProcessError>(
            ProcessError::AccountAlreadyInitialized,
        ),
{
}

/// A DID joins a channel once: `AddToChannel` for an invitee whose cek
/// account holds data fails, and where the inviter passes every check, it
/// fails with `AccountAlreadyInitialized`. The two instructions that create a
/// channel fail as well where a cek account that they are to create holds data.
pub proof fn lemma_member_added_once(
    program_id: Seq<u8>,
    accounts: Seq<AccountView>,
    cek: EncryptedKeyView,
    other_cek: EncryptedKeyView,
    name: Seq<char>,
    accepted: bool,
    cek_address: Option<(Seq<u8>, u8)>,
    facts: DirectChannelFactsView,
)
    requires
        accounts.len() >= 9,
    ensures
        accounts[5].data.len() > 0 ==> add_to_channel_spec(
            program_id,
            accounts,
            cek,
            accepted,
            cek_address,
        ) is Err,
        accounts[5].data.len() > 0 && rent_failure(accounts[7]) is None && cek_channel_failure(
            program_id,
            accounts[4],
            accounts[6],
        ) is None && cek_authority_failure(
            program_id,
            accounts[3],
            accounts[2],
            accounts[4],
            accepted,
        ) is None ==> add_to_channel_spec(program_id, accounts, cek, accepted, cek_address)
            == Err::<Seq<UpdateView>, ProcessError>(ProcessError::AccountAlreadyInitialized),
        accounts[4].data.len() > 0 ==> initialize_channel_spec(
            program_id,
            accounts,
            name,
            cek,
            accepted,
            cek_address,
        ) is Err,
        accounts[4].data.len() > 0 || accounts[6].data.len() > 0
            ==> initialize_direct_channel_spec(
            program_id,
            accounts,
            cek,
            other_cek,
            accepted,
            facts,
        ) is Err,
{
}

/// User details are created once: `CreateUserDetails` on an account that
/// holds data fails, and where the rent rules are in place, it fails with
/// `AlreadyInUse`.
pub proof fn lemma_user_details_created_once(
    program_id: Seq<u8>,
    accounts: Seq<AccountView>,
    details: UserDetailsView,
    size: u32,
    accepted: bool,
    derived: Option<(Seq<u8>, u8)>,
)
    requires
        accounts.len() >= 4,
        accounts[3].data.len() > 0,
    ensures
        create_user_details_spec(program_id, accounts, details, size, accepted, derived) is Err,
        accounts.len() >= 6 && rent_failure(accounts[4]) is None ==> create_user_details_spec(
            program_id,
            accounts,
            details,
            size,
            accepted,
            derived,
        ) == Err::<Seq<UpdateView>, ProcessError>(
            ProcessError::Custom(SolariumError::AlreadyInUse),
        ),
{
}

/// Notifications are created once: `CreateNotifications` on an account that
/// holds data fails, and where the rent rules are in place, it fails with
/// `AlreadyInUse`.
pub proof fn lemma_notifications_created_once(
    program_id: Seq<u8>,
    accounts: Seq<AccountView>,
    size: u8,
    accepted: bool,
    derived: Option<(Seq<u8>, u8)>,
)
    requires
        accounts.len() >= 4,
        accounts[3].data.len() > 0,
    ensures
        create_notifications_spec(program_id, accounts, size, accepted, derived) is Err,
        accounts.len() >= 6 && rent_failure(accounts[4]) is None ==> create_notifications_spec(
            program_id,
            accounts,
            size,
            accepted,
            derived,
        ) == Err::<Seq<UpdateView>, ProcessError>(
            ProcessError::Custom(SolariumError::AlreadyInUse),
        ),
{
}

/// Only who may act for a DID changes anything: where the identity program
/// does not accept the authority, every instruction fails.
pub proof fn lemma_nothing_without_authority(
    program_id: Seq<u8>,
    accounts: Seq<AccountView>,
    name: Seq<char>,
    message: Seq<char>,
    clock: Option<i64>,
    cek: EncryptedKeyView,
    other_cek: EncryptedKeyView,
    details: UserDetailsView,
    size: u32,
    change: UserDetailsChangeView,
    capacity: u8,
    notification: NotificationView,
    list_change: CekListChangeView,
    derived: Option<(Seq<u8>, u8)>,
    facts: DirectChannelFactsView,
)
    ensures
        initialize_channel_spec(program_id, accounts, name, cek, false, derived) is Err,
        initialize_direct_channel_spec(program_id, accounts, cek, other_cek, false, facts) is Err,
        post_spec(program_id, accounts, message, clock, false) is Err,
        add_to_channel_spec(program_id, accounts, cek, false, derived) is Err,
        create_user_details_spec(program_id, accounts, details, size, false, derived) is Err,
        change_user_details_spec(program_id, accounts, change, false, derived) is Err,
        create_notifications_spec(program_id, accounts, capacity, false, derived) is Err,
        add_notification_spec(program_id, accounts, notification, false) is Err,
        change_cek_list_spec(program_id, accounts, list_change, false) is Err,
{
}

/// Only who signs changes anything: where the account that an instruction
/// takes for the authority did not sign, the instruction fails, whatever the
/// identity program answers.
pub proof fn lemma_nothing_without_signature(
    program_id: Seq<u8>,
    accounts: Seq<AccountView>,
    name: Seq<char>,
    message: Seq<char>,
    clock: Option<i64>,
    cek: EncryptedKeyView,
    other_cek: EncryptedKeyView,
    details: UserDetailsView,
    size: u32,
    change: UserDetailsChangeView,
    capacity: u8,
    notification: NotificationView,
    list_change: CekListChangeView,
    accepted: bool,
    derived: Option<(Seq<u8>, u8)>,
    facts: DirectChannelFactsView,
)
    ensures
        accounts.len() > 3 && !accounts[3].is_signer ==> {
            &&& initialize_channel_spec(program_id, accounts, name, cek, accepted, derived) is Err
            &&& initialize_direct_channel_spec(
                program_id,
                accounts,
                cek,
                other_cek,
                accepted,
                facts,
            ) is Err
            &&& add_to_channel_spec(program_id, accounts, cek, accepted, derived) is Err
        },
        accounts.len() > 2 && !accounts[2].is_signer ==> {
            &&& post_spec(program_id, accounts, message, clock, accepted) is Err
            &&& create_user_details_spec(program_id, accounts, details, size, accepted, derived)
                is Err
            &&& create_notifications_spec(program_id, accounts, capacity, accepted, derived) is Err
            &&& add_notification_spec(program_id, accounts, notification, accepted) is Err
        },
        accounts.len() > 1 && !accounts[1].is_signer ==> {
            &&& change_user_details_spec(program_id, accounts, change, accepted, derived) is Err
            &&& change_cek_list_spec(program_id, accounts, list_change, accepted) is Err
        },
{
}

/// Only a member posts: `Post` fails where the sender's cek account is not
/// one for the channel, whether or not the sender's authority is in order;
/// and where all that is checked before is in order, it fails with
/// `CEKIncorrectChannel`.
pub proof fn lemma_post_needs_membership(
    program_id: Seq<u8>,
    accounts: Seq<AccountView>,
    message: Seq<char>,
    clock: Option<i64>,
    accepted: bool,
)
    requires
        accounts.len() >= 4,
        record_of::<CEKAccountDataV2>(accounts[3].data) matches Some(cek) ==> cek.channel
            != accounts[0].key,
    ensures
        post_spec(program_id, accounts, message, clock, accepted) is Err,
        ({
            &&& record_of::<ChannelData>(accounts[0].data) matches Some(channel)
                && channel.is_initialized()
            &&& cek_authority_failure(program_id, accounts[2], accounts[1], accounts[3], accepted)
                is None
            &&& accounts[0].owner == program_id
        }) ==> post_spec(program_id, accounts, message, clock, accepted) == Err::<
            Seq<UpdateView>,
            ProcessError,
        >(ProcessError::Custom(SolariumError::CEKIncorrectChannel)),
{
}

/// What a post leaves: where `Post` succeeds, it updates the channel and
/// nothing else, and the channel then holds the log that it held before with
/// the message at its end, under the sender's DID and the time of the
/// ledger, and without its oldest message where it held eight already.
pub proof fn lemma_post_appends(
    program_id: Seq<u8>,
    accounts: Seq<AccountView>,
    message: Seq<char>,
    clock: Option<i64>,
    accepted: bool,
    updates: Seq<UpdateView>,
)
    requires
        post_spec(program_id, accounts, message, clock, accepted) == Ok::<
            Seq<UpdateView>,
            ProcessError,
        >(updates),
    ensures
        clock is Some,
        accepted,
        updates.len() == 1,
        updates[0].account == 0,
        updates[0].allocation is None,
        record_of::<ChannelData>(accounts[0].data) matches Some(before) && record_of::<
            ChannelData,
        >(updated(accounts[0], program_id, updates[0]).data) matches Some(after) && after.name
            == before.name && after.messages == push_bounded(
            before.messages,
            MessageView { timestamp: clock.unwrap(), sender: accounts[1].key, content: message },
            8,
        ),
{
    let before = record_of::<ChannelData>(accounts[0].data).unwrap();
    let after = before.post(
        MessageView { timestamp: 0, sender: accounts[1].key, content: message },
        clock.unwrap(),
    );
    lemma_update_holds_record::<ChannelData>(accounts[0], program_id, updates[0], after);
}

/// Whether the addresses of the accounts have the length of an address.
pub open spec fn accounts_valid(accounts: Seq<AccountView>) -> bool {
    forall|i: int|
        0 <= i < accounts.len() ==> (#[trigger] accounts[i]).key.len() == 32
            && accounts[i].owner.len() == 32
}

/// Membership is what its creation wrote: once the update that creates a cek
/// account is made, the account is the program's and holds the cek record of
/// the DID for the channel, so that it opens the channel, where the channel
/// is the program's, to whoever may act for the DID.
pub proof fn lemma_created_cek_account_opens_channel(
    program_id: Seq<u8>,
    accounts: Seq<AccountView>,
    at: CekPlaces,
    cek: EncryptedKeyView,
    derived: Option<(Seq<u8>, u8)>,
    update: UpdateView,
    authority: AccountView,
    accepted: bool,
)
    requires
        accounts_valid(accounts),
        at.did < accounts.len(),
        at.cek_account < accounts.len(),
        at.channel < accounts.len(),
        cek.well_formed(),
        create_cek_account_spec(accounts, at, cek, derived) == Ok::<UpdateView, ProcessError>(
            update,
        ),
    ensures
        ({
            let created = updated(accounts[at.cek_account as int], program_id, update);
            &&& created.key == accounts[at.cek_account as int].key
            &&& created.owner == program_id
            &&& record_of::<CEKAccountDataV2>(created.data) == Some(
                CEKAccountView {
                    owner_did: accounts[at.did as int].key,
                    channel: accounts[at.channel as int].key,
                    encrypted_cek: cek,
                },
            )
            &&& accounts[at.channel as int].owner == program_id ==> cek_channel_failure(
                program_id,
                created,
                accounts[at.channel as int],
            ) is None
            &&& cek_authority_failure(
                program_id,
                authority,
                accounts[at.did as int],
                created,
                accepted,
            ) == authority_failure(authority, accepted)
        }),
{
    let record = CEKAccountView {
        owner_did: accounts[at.did as int].key,
        channel: accounts[at.channel as int].key,
        encrypted_cek: cek,
    };
    lemma_cek_account_size(record);
    lemma_update_holds_record::<CEKAccountDataV2>(
        accounts[at.cek_account as int],
        program_id,
        update,
        record,
    );
}

/// Whether each of the updates is of an account among `accounts` whose room
/// takes the data of the update, and no two of them are of one account.
pub open spec fn updates_fit(accounts: Seq<AccountView>, updates: Seq<UpdateView>) -> bool {
    &&& forall|i: int|
        0 <= i < updates.len() ==> (#[trigger] updates[i]).account < accounts.len()
            && updates[i].data.len() <= room_of(accounts[updates[i].account as int], updates[i])
    &&& forall|i: int, j: int|
        0 <= i < j < updates.len() ==> (#[trigger] updates[i]).account != (
        #[trigger] updates[j]).account
}

proof fn lemma_cek_update_fits(
    accounts: Seq<AccountView>,
    at: CekPlaces,
    cek: EncryptedKeyView,
    derived: Option<(Seq<u8>, u8)>,
)
    requires
        accounts_valid(accounts),
        at.did < accounts.len(),
        at.cek_account < accounts.len(),
        at.channel < accounts.len(),
        cek.well_formed(),
    ensures
        create_cek_account_spec(accounts, at, cek, derived) matches Ok(update) ==> update.account
            == at.cek_account && update.data.len() == room_of(
            accounts[at.cek_account as int],
            update,
        ),
{
}

/// The updates of `InitializeChannel` can be made.
pub proof fn lemma_channel_updates_fit(
    program_id: Seq<u8>,
    accounts: Seq<AccountView>,
    name: Seq<char>,
    cek: EncryptedKeyView,
    accepted: bool,
    cek_address: Option<(Seq<u8>, u8)>,
)
    requires
        accounts_valid(accounts),
        cek.well_formed(),
    ensures
        initialize_channel_spec(program_id, accounts, name, cek, accepted, cek_address) matches Ok(
            updates,
        ) ==> updates_fit(accounts, updates),
{
    if accounts.len() >= 7 {
        lemma_cek_update_fits(accounts, initialize_channel_places(), cek, cek_address);
    }
}

/// The updates of `InitializeDirectChannel` can be made.
pub proof fn lemma_direct_channel_updates_fit(
    program_id: Seq<u8>,
    accounts: Seq<AccountView>,
    creator_cek: EncryptedKeyView,
    invitee_cek: EncryptedKeyView,
    accepted: bool,
    facts: DirectChannelFactsView,
)
    requires
        accounts_valid(accounts),
        creator_cek.well_formed(),
        invitee_cek.well_formed(),
    ensures
        initialize_direct_channel_spec(
            program_id,
            accounts,
            creator_cek,
            invitee_cek,
            accepted,
            facts,
        ) matches Ok(updates) ==> updates_fit(accounts, updates),
{
    if accounts.len() >= 9 {
        lemma_cek_update_fits(
            accounts,
            direct_channel_creator_places(),
            creator_cek,
            facts.creator_cek_address,
        );
        lemma_cek_update_fits(
            accounts,
            direct_channel_invitee_places(),
            invitee_cek,
            facts.invitee_cek_address,
        );
    }
}

/// The update of `AddToChannel` can be made.
pub proof fn lemma_add_to_channel_updates_fit(
    program_id: Seq<u8>,
    accounts: Seq<AccountView>,
    cek: EncryptedKeyView,
    accepted: bool,
    cek_address: Option<(Seq<u8>, u8)>,
)
    requires
        accounts_valid(accounts),
        cek.well_formed(),
    ensures
        add_to_channel_spec(program_id, accounts, cek, accepted, cek_address) matches Ok(updates)
            ==> updates_fit(accounts, updates),
{
    if accounts.len() >= 9 {
        lemma_cek_update_fits(accounts, add_to_channel_places(), cek, cek_address);
    }
}

/// The update of an instruction that writes one record can be made.
pub proof fn lemma_single_updates_fit(
    program_id: Seq<u8>,
    accounts: Seq<AccountView>,
    message: Seq<char>,
    clock: Option<i64>,
    details: UserDetailsView,
    size: u32,
    change: UserDetailsChangeView,
    capacity: u8,
    notification: NotificationView,
    list_change: CekListChangeView,
    accepted: bool,
    derived: Option<(Seq<u8>, u8)>,
)
    ensures
        post_spec(program_id, accounts, message, clock, accepted) matches Ok(updates)
            ==> updates_fit(accounts, updates),
        create_user_details_spec(program_id, accounts, details, size, accepted, derived) matches Ok(
            updates,
        ) ==> updates_fit(accounts, updates),
        change_user_details_spec(program_id, accounts, change, accepted, derived) matches Ok(
            updates,
        ) ==> updates_fit(accounts, updates),
        create_notifications_spec(program_id, accounts, capacity, accepted, derived) matches Ok(
            updates,
        ) ==> updates_fit(accounts, updates),
        add_notification_spec(program_id, accounts, notification, accepted) matches Ok(updates)
            ==> updates_fit(accounts, updates),
        change_cek_list_spec(program_id, accounts, list_change, accepted) matches Ok(updates)
            ==> updates_fit(accounts, updates),
{
}

/// The updates of an instruction that succeeds can be made: each is of one
/// of the accounts that the invocation names, that account has room for it,
/// and no account is updated twice.
pub proof fn lemma_updates_fit(
    program_id: Seq<u8>,
    accounts: Seq<AccountView>,
    instruction: InstructionView,
    clock: Option<i64>,
)
    requires
        accounts_valid(accounts),
        instruction.fields_fit(),
    ensures
        instruction_outcome(program_id, accounts, instruction, clock) matches Ok(updates)
            ==> updates_fit(accounts, updates),
{
    let blank = UserDetailsView {
        alias: Seq::empty(),
        address_book: Seq::empty(),
        encrypted_user_private_key_data: Seq::empty(),
        user_public_key: Seq::empty(),
    };
    let no_change = UserDetailsChangeView::RemoveKey { kid: Seq::empty() };
    let no_list_change = CekListChangeView::Remove { kid: Seq::empty() };
    let nobody = NotificationView {
        notification_type: NotificationType::GroupChannel,
        pubkey: Seq::empty(),
    };
    match instruction {
        InstructionView::InitializeChannel { name, cek } => {
            lemma_channel_updates_fit(
                program_id,
                accounts,
                name,
                cek,
                accepts(accounts[2], accounts[3]),
                cek_address(program_id, accounts, 2, 1),
            );
        },
        InstructionView::InitializeDirectChannel { creator_cek, invitee_cek } => {
            lemma_direct_channel_updates_fit(
                program_id,
                accounts,
                creator_cek,
                invitee_cek,
                accepts(accounts[2], accounts[3]),
                DirectChannelFactsView {
                    channel_address: program_address(
                        channel_seeds(accounts[2].key, accounts[5].key),
                        program_id,
                    ),
                    creator_cek_address: cek_address(program_id, accounts, 2, 1),
                    invitee_cek_address: cek_address(program_id, accounts, 5, 1),
                    name: direct_channel_name_spec(
                        accounts[2].key,
                        accounts[5].key,
                    ),
                },
            );
        },
        InstructionView::AddToChannel { cek } => {
            lemma_add_to_channel_updates_fit(
                program_id,
                accounts,
                cek,
                accepts(accounts[2], accounts[3]),
                cek_address(program_id, accounts, 1, 6),
            );
        },
        InstructionView::Post { message } => {
            lemma_single_updates_fit(
                program_id,
                accounts,
                message,
                clock,
                blank,
                0,
                no_change,
                0,
                nobody,
                no_list_change,
                accepts(accounts[1], accounts[2]),
                None,
            );
        },
        InstructionView::AddEncryptedUserKey { key_data } => {
            lemma_single_updates_fit(
                program_id,
                accounts,
                Seq::empty(),
                clock,
                blank,
                0,
                UserDetailsChangeView::AddKey { key_data },
                0,
                nobody,
                no_list_change,
                accepts(accounts[0], accounts[1]),
                user_details_address(program_id, accounts, 0),
            );
        },
        InstructionView::RemoveEncryptedUserKey { kid } => {
            lemma_single_updates_fit(
                program_id,
                accounts,
                Seq::empty(),
                clock,
                blank,
                0,
                UserDetailsChangeView::RemoveKey { kid },
                0,
                nobody,
                no_list_change,
                accepts(accounts[0], accounts[1]),
                user_details_address(program_id, accounts, 0),
            );
        },
        InstructionView::CreateUserDetails {
            alias,
            address_book,
            user_pub_key,
            encrypted_user_private_key_data,
            size,
        } => {
            lemma_single_updates_fit(
                program_id,
                accounts,
                Seq::empty(),
                clock,
                UserDetailsView {
                    alias,
                    address_book,
                    encrypted_user_private_key_data,
                    user_public_key: user_pub_key,
                },
                size,
                no_change,
                0,
                nobody,
                no_list_change,
                accepts(accounts[1], accounts[2]),
                user_details_address(program_id, accounts, 1),
            );
        },
        InstructionView::UpdateUserDetails { alias, address_book } => {
            lemma_single_updates_fit(
                program_id,
                accounts,
                Seq::empty(),
                clock,
                blank,
                0,
                UserDetailsChangeView::Update { alias, address_book },
                0,
                nobody,
                no_list_change,
                accepts(accounts[0], accounts[1]),
                user_details_address(program_id, accounts, 0),
            );
        },
        InstructionView::CreateNotifications { size } => {
            lemma_single_updates_fit(
                program_id,
                accounts,
                Seq::empty(),
                clock,
                blank,
                0,
                no_change,
                size,
                nobody,
                no_list_change,
                accepts(accounts[1], accounts[2]),
                program_address(
                    notifications_account_seeds(accounts[1].key),
                    program_id,
                ),
            );
        },
        InstructionView::AddNotification { notification_type, pubkey } => {
            lemma_single_updates_fit(
                program_id,
                accounts,
                Seq::empty(),
                clock,
                blank,
                0,
                no_change,
                0,
                NotificationView { notification_type, pubkey },
                no_list_change,
                accepts(accounts[1], accounts[2]),
                None,
            );
        },
    }
}

/// The updates of an invocation that succeeds can be made, whatever buffer
/// the invocation came with.
pub proof fn lemma_outcome_fits(
    program_id: Seq<u8>,
    accounts: Seq<AccountView>,
    input: Seq<u8>,
    clock: Option<i64>,
)
    requires
        accounts_valid(accounts),
    ensures
        process_instruction_outcome(program_id, accounts, input, clock) matches Ok(updates)
            ==> updates_fit(accounts, updates),
{
    lemma_instruction_read(input);
    if let Some(instruction) = instruction_of(input) {
        lemma_updates_fit(program_id, accounts, instruction, clock);
    }
}

/// Updates that fit are all made, each on the account as the invocation
/// found it: afterwards each updated account is what its update makes of it,
/// and every other account is as it was.
pub proof fn lemma_commit_makes_each_update(
    accounts: Seq<AccountView>,
    program_id: Seq<u8>,
    updates: Seq<UpdateView>,
)
    requires
        updates_fit(accounts, updates),
        forall|i: int|
            0 <= i < updates.len() ==> room_of(
                accounts[(#[trigger] updates[i]).account as int],
                updates[i],
            ) <= usize::MAX,
    ensures
        committed(accounts, program_id, updates).len() == accounts.len(),
        forall|i: int|
            0 <= i < updates.len() ==> committed(accounts, program_id, updates)[(
            #[trigger] updates[i]).account as int] == updated(
                accounts[updates[i].account as int],
                program_id,
                updates[i],
            ),
        forall|k: int|
            0 <= k < accounts.len() && (forall|i: int|
                0 <= i < updates.len() ==> (#[trigger] updates[i]).account != k) ==> (
            #[trigger] committed(accounts, program_id, updates)[k]) == accounts[k],
    decreases updates.len(),
{
    if updates.len() > 0 {
        let earlier = updates.drop_last();
        let last = updates.last();
        assert forall|i: int| 0 <= i < earlier.len() implies earlier[i] == updates[i] by {}
        assert(updates_fit(accounts, earlier));
        lemma_commit_makes_each_update(accounts, program_id, earlier);
        let before = committed(accounts, program_id, earlier);
        assert(before[last.account as int] == accounts[last.account as int]) by {
            assert forall|i: int| 0 <= i < earlier.len() implies (#[trigger] earlier[i]).account
                != last.account by {
                assert(updates[i].account != updates[updates.len() - 1].account);
            }
        }
        assert(update_applies(before, last));
        let after = committed(accounts, program_id, updates);
        assert(after == before.update(
            last.account as int,
            updated(before[last.account as int], program_id, last),
        ));
        assert forall|i: int| 0 <= i < updates.len() implies after[(
        #[trigger] updates[i]).account as int] == updated(
            accounts[updates[i].account as int],
            program_id,
            updates[i],
        ) by {
            if i < updates.len() - 1 {
                assert(updates[i].account != updates[updates.len() - 1].account);
                assert(earlier[i] == updates[i]);
            }
        }
        assert forall|k: int|
            0 <= k < accounts.len() && (forall|i: int|
                0 <= i < updates.len() ==> (#[trigger] updates[i]).account != k) implies (
        #[trigger] after[k]) == accounts[k] by {
            assert(updates[updates.len() - 1].account != k);
            assert forall|i: int| 0 <= i < earlier.len() implies (#[trigger] earlier[i]).account
                != k by {
                assert(updates[i].account != k);
            }
        }
    }
}

} // verus!
