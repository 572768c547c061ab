//! Program state processor

use crate::address::{
    cek_account_seed_list, cek_account_seeds, channel_seed_list, channel_seeds, derived_view,
    direct_channel_name, direct_channel_name_spec, get_cek_account_address_with_seed,
    get_channel_address_with_seed, get_notifications_account_address_with_seed,
    get_userdetails_account_address_with_seed, notifications_account_seed_list,
    notifications_account_seeds, program_address, same_address, seeds_view, signer_seeds,
    userdetails_account_seed_list, userdetails_account_seeds, Address, RENT_SYSVAR_ID,
};
use crate::error::{ProcessError, SolariumError};
use crate::identity::{did_authorizes, validate_owner};
use crate::instruction::{instruction_of, InstructionView, SolariumInstruction};
use crate::records::{decode, encode, record_of, Wire};
use crate::state::{
    views, CEKAccountDataV1, CEKAccountDataV2, CEKAccountV1View, CEKAccountView, CEKDataV1,
    CEKDataV1View, ChannelData, ChannelView, EncryptedKeyData,
    EncryptedKeyView, Kid, Message, MessageView, Notification, NotificationType,
    NotificationView, Notifications, NotificationsView, UserDetails, UserDetailsView, UserPubKey,
};
use vstd::prelude::*;
use vstd::utf8::encode_utf8;

verus! {

/// The number of bytes that the ledger's rent rules take
pub const RENT_SIZE_BYTES: usize = 17;

/// What the program sees of an account that an invocation names.
#[derive(Clone, Debug, PartialEq)]
pub struct Account {
    /// The address of the account
    pub key: Address,
    /// The program that owns the account
    pub owner: Address,
    /// Whether the key of the account signed the invocation
    pub is_signer: bool,
    /// The data that the account holds
    pub data: Vec<u8>,
}

/// An account as a value of sequences: what the contracts say of accounts.
pub struct AccountView {
    pub key: Seq<u8>,
    pub owner: Seq<u8>,
    pub is_signer: bool,
    pub data: Seq<u8>,
}

impl View for Account {
    type V = AccountView;

    open spec fn view(&self) -> AccountView {
        AccountView {
            key: self.key@,
            owner: self.owner@,
            is_signer: self.is_signer,
            data: self.data@,
        }
    }
}

/// The request to create an account before anything is written to it: the
/// funding account pays for `space` bytes, the program becomes the owner, and
/// the program signs for the address with `seeds`.
#[derive(Clone, Debug, PartialEq)]
pub struct Allocation {
    /// The position of the funding account among the accounts of the invocation
    pub funder: usize,
    /// The position of the account with the rent rules
    pub rent: usize,
    /// The position of the system program
    pub system_program: usize,
    /// The number of bytes to allocate
    pub space: u64,
    /// The seeds of the address of the account, the bump seed last
    pub seeds: Vec<Vec<u8>>,
}

/// The request to create an account, its seeds as sequences of bytes.
pub struct AllocationView {
    pub funder: usize,
    pub rent: usize,
    pub system_program: usize,
    pub space: u64,
    pub seeds: Seq<Seq<u8>>,
}

impl View for Allocation {
    type V = AllocationView;

    open spec fn view(&self) -> AllocationView {
        AllocationView {
            funder: self.funder,
            rent: self.rent,
            system_program: self.system_program,
            space: self.space,
            seeds: seeds_view(self.seeds@),
        }
    }
}

/// What an invocation does to one account: the account is created first where
/// `allocation` says so, and then `data` is written to the front of its data.
#[derive(Clone, Debug, PartialEq)]
pub struct AccountUpdate {
    /// The position of the account among the accounts of the invocation
    pub account: usize,
    /// How to create the account, where it is to be created
    pub allocation: Option<Allocation>,
    /// The bytes of the record that the account holds afterwards
    pub data: Vec<u8>,
}

/// An update as a value of sequences.
pub struct UpdateView {
    pub account: usize,
    pub allocation: Option<AllocationView>,
    pub data: Seq<u8>,
}

impl View for AccountUpdate {
    type V = UpdateView;

    open spec fn view(&self) -> UpdateView {
        UpdateView {
            account: self.account,
            allocation: match self.allocation {
                Some(allocation) => Some(allocation@),
                None => None,
            },
            data: self.data@,
        }
    }
}

/// What an invocation ends with: the updates of the accounts, or the error.
pub open spec fn outcome_view(outcome: Result<Vec<AccountUpdate>, ProcessError>) -> Result<
    Seq<UpdateView>,
    ProcessError,
> {
    match outcome {
        Ok(updates) => Ok(views(updates@)),
        Err(e) => Err(e),
    }
}

/// What the step of an invocation that prepares one update ends with.
pub open spec fn step_view(step: Result<AccountUpdate, ProcessError>) -> Result<
    UpdateView,
    ProcessError,
> {
    match step {
        Ok(update) => Ok(update@),
        Err(e) => Err(e),
    }
}

/// Why the account does not hold the ledger's rent rules, if it does not.
pub open spec fn rent_failure(rent: AccountView) -> Option<ProcessError> {
    if rent.key != RENT_SYSVAR_ID@ || rent.data.len() < RENT_SIZE_BYTES {
        Some(ProcessError::InvalidArgument)
    } else {
        None
    }
}

/// Why `authority` may not act for a DID, if it may not: it did not sign, or
/// the identity program does not accept it. `accepted` is the answer of the
/// identity program.
pub open spec fn authority_failure(authority: AccountView, accepted: bool) -> Option<
    ProcessError,
> {
    if !authority.is_signer {
        Some(ProcessError::MissingRequiredSignature)
    } else if !accepted {
        Some(ProcessError::Custom(SolariumError::IncorrectAuthority))
    } else {
        None
    }
}

/// Why `authority` may not use the cek account for `did`, if it may not: it
/// may not act for the DID, the account does not hold a cek record, the
/// record belongs to another DID, or the account is not the program's.
pub open spec fn cek_authority_failure(
    program_id: Seq<u8>,
    authority: AccountView,
    did: AccountView,
    cek_account: AccountView,
    accepted: bool,
) -> Option<ProcessError> {
    match authority_failure(authority, accepted) {
        Some(e) => Some(e),
        None => match record_of::<CEKAccountDataV2>(cek_account.data) {
            None => Some(ProcessError::BorshIoError),
            Some(cek) => if cek.owner_did != did.key {
                Some(ProcessError::Custom(SolariumError::IncorrectAuthority))
            } else if cek_account.owner != program_id {
                Some(ProcessError::IncorrectProgramId)
            } else {
                None
            },
        },
    }
}

/// Why the cek account does not open the channel, if it does not: the channel
/// is not the program's, the account does not hold a cek record, or the
/// record is for another channel.
pub open spec fn cek_channel_failure(
    program_id: Seq<u8>,
    cek_account: AccountView,
    channel: AccountView,
) -> Option<ProcessError> {
    if channel.owner != program_id {
        Some(ProcessError::IncorrectProgramId)
    } else {
        match record_of::<CEKAccountDataV2>(cek_account.data) {
            None => Some(ProcessError::BorshIoError),
            Some(cek) => if cek.channel != channel.key {
                Some(ProcessError::Custom(SolariumError::CEKIncorrectChannel))
            } else {
                None
            },
        }
    }
}

/// Why the address is not the derived one, if it is not. `derived` is what
/// the ledger derives, with the bump seed.
pub open spec fn address_failure(derived: Option<(Seq<u8>, u8)>, address: Seq<u8>) -> Option<
    ProcessError,
> {
    match derived {
        None => Some(ProcessError::InvalidSeeds),
        Some((expected, bump)) => if expected != address {
            Some(ProcessError::Custom(SolariumError::AddressDerivationMismatch))
        } else {
            None
        },
    }
}

/// Why `authority` may not change the user details account of a DID, if it
/// may not: it may not act for the DID, the account is not the program's, or
/// its address is not the one derived for the DID.
pub open spec fn user_details_authority_failure(
    program_id: Seq<u8>,
    authority: AccountView,
    user_details: AccountView,
    accepted: bool,
    derived: Option<(Seq<u8>, u8)>,
) -> Option<ProcessError> {
    match authority_failure(authority, accepted) {
        Some(e) => Some(e),
        None => if user_details.owner != program_id {
            Some(ProcessError::IncorrectProgramId)
        } else {
            address_failure(derived, user_details.key)
        },
    }
}

/// Why `authority` may not change the cek account with a list of CEKs for
/// `did`, if it may not: it may not act for the DID, the account does not
/// hold a list of CEKs, the list belongs to another DID, or the account is
/// not the program's.
pub open spec fn cek_list_authority_failure(
    program_id: Seq<u8>,
    authority: AccountView,
    did: AccountView,
    cek_account: AccountView,
    accepted: bool,
) -> Option<ProcessError> {
    match authority_failure(authority, accepted) {
        Some(e) => Some(e),
        None => match record_of::<CEKAccountDataV1>(cek_account.data) {
            None => Some(ProcessError::BorshIoError),
            Some(list) => if list.owner_did != did.key {
                Some(ProcessError::Custom(SolariumError::IncorrectAuthority))
            } else if cek_account.owner != program_id {
                Some(ProcessError::IncorrectProgramId)
            } else {
                None
            },
        },
    }
}

/// The update that writes a record to an account with `room` bytes, or the
/// error where the record does not fit the layout or the room.
pub open spec fn record_update<T: Wire>(
    account: usize,
    allocation: Option<AllocationView>,
    record: T::V,
    room: int,
) -> Result<UpdateView, ProcessError> {
    if !T::fits(record) || T::ser(record).len() > room {
        Err(ProcessError::Custom(SolariumError::Overflow))
    } else {
        Ok(UpdateView { account, allocation, data: T::ser(record) })
    }
}

/// The one update that an invocation makes, as the list of its updates.
pub open spec fn single(step: Result<UpdateView, ProcessError>) -> Result<
    Seq<UpdateView>,
    ProcessError,
> {
    match step {
        Ok(update) => Ok(seq![update]),
        Err(e) => Err(e),
    }
}

/// What the identity program answers when asked whether `authority` may act
/// for `did`.
pub open spec fn accepts(did: AccountView, authority: AccountView) -> bool {
    did_authorizes(did.owner, did.data, authority.key, authority.is_signer)
}

/// Asks the identity program whether `authority` may act for `did`.
pub fn ask_identity(did: &Account, authority: &Account) -> (accepted: bool)
    ensures
        accepted == accepts(did@, authority@),
{
    validate_owner(&did.owner, &did.data, &authority.key, authority.is_signer)
}

/// Checks that the account holds the ledger's rent rules.
pub fn check_rent(rent: &Account) -> (checked: Result<(), ProcessError>)
    ensures
        match rent_failure(rent@) {
            Some(e) => checked == Err::<(), ProcessError>(e),
            None => checked is Ok,
        },
{
    if !same_address(&rent.key, &RENT_SYSVAR_ID) || rent.data.len() < RENT_SIZE_BYTES {
        return Err(ProcessError::InvalidArgument);
    }
    Ok(())
}

/// Checks that the authority signed and that the identity program accepted it.
pub fn check_authority_of_did(authority: &Account, accepted: bool) -> (checked: Result<
    (),
    ProcessError,
>)
    ensures
        match authority_failure(authority@, accepted) {
            Some(e) => checked == Err::<(), ProcessError>(e),
            None => checked is Ok,
        },
{
    if !authority.is_signer {
        return Err(ProcessError::MissingRequiredSignature);
    }
    if !accepted {
        return Err(ProcessError::Custom(SolariumError::IncorrectAuthority));
    }
    Ok(())
}

/// Checks that the authority account is an authority for the DID,
/// and that the CEK account is owned by that DID
pub fn check_authority_of_cek(
    program_id: &Address,
    authority: &Account,
    did: &Account,
    cek_account: &Account,
    accepted: bool,
) -> (checked: Result<(), ProcessError>)
    ensures
        match cek_authority_failure(program_id@, authority@, did@, cek_account@, accepted) {
            Some(e) => checked == Err::<(), ProcessError>(e),
            None => checked is Ok,
        },
{
    check_authority_of_did(authority, accepted)?;
    let cek = match decode::<CEKAccountDataV2>(cek_account.data.as_slice()) {
        Some(cek) => cek,
        None => {
            return Err(ProcessError::BorshIoError);
        },
    };
    if !same_address(&cek.owner_did, &did.key) {
        return Err(ProcessError::Custom(SolariumError::IncorrectAuthority));
    }
    if !same_address(&cek_account.owner, program_id) {
        return Err(ProcessError::IncorrectProgramId);
    }
    Ok(())
}

/// Checks that the cek account belongs to the channel, and that the channel
/// is owned by this program
pub fn check_cek_account(
    program_id: &Address,
    cek_account: &Account,
    channel: &Account,
) -> (checked: Result<(), ProcessError>)
    ensures
        match cek_channel_failure(program_id@, cek_account@, channel@) {
            Some(e) => checked == Err::<(), ProcessError>(e),
            None => checked is Ok,
        },
{
    if !same_address(&channel.owner, program_id) {
        return Err(ProcessError::IncorrectProgramId);
    }
    let cek = match decode::<CEKAccountDataV2>(cek_account.data.as_slice()) {
        Some(cek) => cek,
        None => {
            return Err(ProcessError::BorshIoError);
        },
    };
    if !same_address(&cek.channel, &channel.key) {
        return Err(ProcessError::Custom(SolariumError::CEKIncorrectChannel));
    }
    Ok(())
}

/// Checks that the address is the derived one, and gives the bump seed.
pub fn check_address(derived: Option<(Address, u8)>, address: &Address) -> (checked: Result<
    u8,
    ProcessError,
>)
    ensures
        match address_failure(derived_view(derived), address@) {
            Some(e) => checked == Err::<u8, ProcessError>(e),
            None => checked == Ok::<u8, ProcessError>(derived_view(derived).unwrap().1),
        },
{
    match derived {
        None => Err(ProcessError::InvalidSeeds),
        Some((expected, bump)) => {
            if !same_address(&expected, address) {
                Err(ProcessError::Custom(SolariumError::AddressDerivationMismatch))
            } else {
                Ok(bump)
            }
        },
    }
}

/// Checks that the authority account is an authority for the DID,
/// and that the user details account is owned by that DID
pub fn check_authority_of_user_details(
    program_id: &Address,
    authority: &Account,
    user_details: &Account,
    accepted: bool,
    derived: Option<(Address, u8)>,
) -> (checked: Result<(), ProcessError>)
    ensures
        match user_details_authority_failure(
            program_id@,
            authority@,
            user_details@,
            accepted,
            derived_view(derived),
        ) {
            Some(e) => checked == Err::<(), ProcessError>(e),
            None => checked is Ok,
        },
{
    check_authority_of_did(authority, accepted)?;
    if !same_address(&user_details.owner, program_id) {
        return Err(ProcessError::IncorrectProgramId);
    }
    // check that the user details account belongs to the DID
    check_address(derived, &user_details.key)?;
    Ok(())
}

/// Checks the authority over a cek account that holds a list of CEKs, and
/// reads the list.
pub fn check_authority_of_cek_list(
    program_id: &Address,
    authority: &Account,
    did: &Account,
    cek_account: &Account,
    accepted: bool,
) -> (checked: Result<CEKAccountDataV1, ProcessError>)
    ensures
        match cek_list_authority_failure(program_id@, authority@, did@, cek_account@, accepted) {
            Some(e) => checked == Err::<CEKAccountDataV1, ProcessError>(e),
            None => checked matches Ok(list) && record_of::<CEKAccountDataV1>(cek_account@.data)
                == Some(list@),
        },
{
    check_authority_of_did(authority, accepted)?;
    let list = match decode::<CEKAccountDataV1>(cek_account.data.as_slice()) {
        Some(list) => list,
        None => {
            return Err(ProcessError::BorshIoError);
        },
    };
    if !same_address(&list.owner_did, &did.key) {
        return Err(ProcessError::Custom(SolariumError::IncorrectAuthority));
    }
    if !same_address(&cek_account.owner, program_id) {
        return Err(ProcessError::IncorrectProgramId);
    }
    Ok(list)
}

/// Prepares the update that writes `record` to an account with `room` bytes.
pub fn write_record<T: Wire>(
    account: usize,
    allocation: Option<Allocation>,
    record: &T,
    room: usize,
) -> (step: Result<AccountUpdate, ProcessError>)
    ensures
        step_view(step) == record_update::<T>(
            account,
            match allocation {
                Some(a) => Some(a@),
                None => None,
            },
            record@,
            room as int,
        ),
{
    match encode::<T>(record) {
        Some(data) => {
            if data.len() > room {
                Err(ProcessError::Custom(SolariumError::Overflow))
            } else {
                Ok(AccountUpdate { account, allocation, data })
            }
        },
        None => Err(ProcessError::Custom(SolariumError::Overflow)),
    }
}

fn single_update(step: Result<AccountUpdate, ProcessError>) -> (outcome: Result<
    Vec<AccountUpdate>,
    ProcessError,
>)
    ensures
        outcome_view(outcome) == single(step_view(step)),
{
    let update = step?;
    let mut updates: Vec<AccountUpdate> = Vec::new();
    updates.push(update);
    assert(views(updates@) =~= seq![update@]);
    Ok(updates)
}

/// A cek record takes as many bytes as a cek account has.
pub proof fn lemma_cek_account_size(record: CEKAccountView)
    requires
        record.well_formed(),
    ensures
        CEKAccountDataV2::ser(record).len() == CEKAccountDataV2::SIZE_BYTES,
{
}

/// The positions, among the accounts of an invocation, of the accounts that
/// the creation of a cek account works with.
#[derive(Clone, Copy, Debug, PartialEq, Eq, Structural)]
pub struct CekPlaces {
    /// The funding account
    pub funder: usize,
    /// The DID that becomes a member
    pub did: usize,
    /// The cek account to create
    pub cek_account: usize,
    /// The channel
    pub channel: usize,
    /// The rent rules
    pub rent: usize,
    /// The system program
    pub system_program: usize,
}

/// The creation of the cek account that makes a DID a member of a channel:
/// the account must hold no data yet and have the address derived for the DID
/// and the channel, which is `derived`.
pub open spec fn create_cek_account_spec(
    accounts: Seq<AccountView>,
    at: CekPlaces,
    cek: EncryptedKeyView,
    derived: Option<(Seq<u8>, u8)>,
) -> Result<UpdateView, ProcessError> {
    let did = accounts[at.did as int];
    let channel = accounts[at.channel as int];
    let cek_account = accounts[at.cek_account as int];
    if cek_account.data.len() > 0 {
        Err(ProcessError::AccountAlreadyInitialized)
    } else {
        match address_failure(derived, cek_account.key) {
            Some(e) => Err(e),
            None => Ok(
                UpdateView {
                    account: at.cek_account,
                    allocation: Some(
                        AllocationView {
                            funder: at.funder,
                            rent: at.rent,
                            system_program: at.system_program,
                            space: CEKAccountDataV2::SIZE_BYTES,
                            seeds: cek_account_seeds(did.key, channel.key).push(
                                seq![derived.unwrap().1],
                            ),
                        },
                    ),
                    data: CEKAccountDataV2::ser(
                        CEKAccountView {
                            owner_did: did.key,
                            channel: channel.key,
                            encrypted_cek: cek,
                        },
                    ),
                },
            ),
        }
    }
}

/// Prepares the creation of the cek account that makes a DID a member of a
/// channel, given the address that the ledger derives for the two.
pub fn create_cek_account(
    accounts: &[Account],
    at: CekPlaces,
    cek: EncryptedKeyData,
    derived: Option<(Address, u8)>,
) -> (step: Result<AccountUpdate, ProcessError>)
    ensures
        at.did < accounts@.len() && at.cek_account < accounts@.len() && at.channel
            < accounts@.len() ==> step_view(step) == create_cek_account_spec(
            views(accounts@),
            at,
            cek@,
            derived_view(derived),
        ),
        !(at.did < accounts@.len() && at.cek_account < accounts@.len() && at.channel
            < accounts@.len()) ==> step == Err::<AccountUpdate, ProcessError>(
            ProcessError::NotEnoughAccountKeys,
        ),
{
    if at.did >= accounts.len() || at.cek_account >= accounts.len() || at.channel
        >= accounts.len() {
        return Err(ProcessError::NotEnoughAccountKeys);
    }
    let did = &accounts[at.did];
    let channel = &accounts[at.channel];
    let cek_account = &accounts[at.cek_account];
    // Check that we are not overwriting an existing cek account
    if cek_account.data.len() > 0 {
        return Err(ProcessError::AccountAlreadyInitialized);
    }
    // Check that the new cek account address has been derived correctly
    // for the invitee and channel
    let bump = check_address(derived, &cek_account.key)?;
    // Create the new cek account for the invitee
    let record = CEKAccountDataV2::new(did.key, channel.key, cek);
    let seeds = signer_seeds(cek_account_seed_list(&did.key, &channel.key), bump);
    let allocation = Allocation {
        funder: at.funder,
        rent: at.rent,
        system_program: at.system_program,
        space: CEKAccountDataV2::SIZE_BYTES,
        seeds,
    };
    proof {
        lemma_cek_account_size(record@);
    }
    write_record::<CEKAccountDataV2>(
        at.cek_account,
        Some(allocation),
        &record,
        CEKAccountDataV2::SIZE_BYTES as usize,
    )
}

/// The address that the ledger derives for the cek account of the DID at
/// `did` in the channel at `channel`.
pub open spec fn cek_address(
    program_id: Seq<u8>,
    accounts: Seq<AccountView>,
    did: int,
    channel: int,
) -> Option<(Seq<u8>, u8)> {
    program_address(cek_account_seeds(accounts[did].key, accounts[channel].key), program_id)
}

/// Where `InitializeChannel` finds the accounts of the creation of the cek account.
pub open spec fn initialize_channel_places() -> CekPlaces {
    CekPlaces { funder: 0, did: 2, cek_account: 4, channel: 1, rent: 5, system_program: 6 }
}

/// What `InitializeChannel` does, given the answer of the identity program
/// and the address derived for the creator's cek account. The accounts are,
/// in this order: the funding account, the channel, the creator DID, the
/// creator authority, the creator cek account, the rent rules, the system
/// program.
pub open spec fn initialize_channel_spec(
    program_id: Seq<u8>,
    accounts: Seq<AccountView>,
    name: Seq<char>,
    cek: EncryptedKeyView,
    accepted: bool,
    cek_address: Option<(Seq<u8>, u8)>,
) -> Result<Seq<UpdateView>, ProcessError> {
    if accounts.len() < 7 {
        Err(ProcessError::NotEnoughAccountKeys)
    } else if rent_failure(accounts[5]) is Some {
        Err(rent_failure(accounts[5]).unwrap())
    } else if accounts[1].owner != program_id {
        Err(ProcessError::IncorrectProgramId)
    } else if record_of::<ChannelData>(accounts[1].data) is None {
        Err(ProcessError::BorshIoError)
    } else if record_of::<ChannelData>(accounts[1].data).unwrap().is_initialized() {
        Err(ProcessError::Custom(SolariumError::AlreadyInUse))
    } else if authority_failure(accounts[3], accepted) is Some {
        Err(authority_failure(accounts[3], accepted).unwrap())
    } else {
        match create_cek_account_spec(accounts, initialize_channel_places(), cek, cek_address) {
            Err(e) => Err(e),
            Ok(cek_update) => match record_update::<ChannelData>(
                1,
                None,
                ChannelView { name, messages: Seq::empty() },
                accounts[1].data.len() as int,
            ) {
                Err(e) => Err(e),
                Ok(channel_update) => Ok(seq![cek_update, channel_update]),
            },
        }
    }
}

/// Decides `InitializeChannel`, given the answer of the identity program and
/// the address derived for the creator's cek account.
pub fn initialize_channel_given(
    program_id: &Address,
    accounts: &[Account],
    name: String,
    cek: EncryptedKeyData,
    accepted: bool,
    cek_address: Option<(Address, u8)>,
) -> (outcome: Result<Vec<AccountUpdate>, ProcessError>)
    ensures
        outcome_view(outcome) == initialize_channel_spec(
            program_id@,
            views(accounts@),
            name@,
            cek@,
            accepted,
            derived_view(cek_address),
        ),
{
    if accounts.len() < 7 {
        return Err(ProcessError::NotEnoughAccountKeys);
    }
    let channel_info = &accounts[1];
    check_rent(&accounts[5])?;
    if !same_address(&channel_info.owner, program_id) {
        return Err(ProcessError::IncorrectProgramId);
    }
    let channel = match decode::<ChannelData>(channel_info.data.as_slice()) {
        Some(channel) => channel,
        None => {
            return Err(ProcessError::BorshIoError);
        },
    };
    if channel.is_initialized() {
        return Err(ProcessError::Custom(SolariumError::AlreadyInUse));
    }
    // Check that the authority is valid for the DID
    check_authority_of_did(&accounts[3], accepted)?;
    let at = CekPlaces {
        funder: 0,
        did: 2,
        cek_account: 4,
        channel: 1,
        rent: 5,
        system_program: 6,
    };
    let cek_update = create_cek_account(accounts, at, cek, cek_address)?;
    let channel = ChannelData::new(name);
    let channel_update = write_record::<ChannelData>(1, None, &channel, channel_info.data.len())?;
    let mut updates: Vec<AccountUpdate> = Vec::new();
    updates.push(cek_update);
    updates.push(channel_update);
    assert(views(updates@) =~= seq![cek_update@, channel_update@]);
    Ok(updates)
}

/// What `InitializeChannel` does.
pub open spec fn initialize_channel_outcome(
    program_id: Seq<u8>,
    accounts: Seq<AccountView>,
    name: Seq<char>,
    cek: EncryptedKeyView,
) -> Result<Seq<UpdateView>, ProcessError> {
    initialize_channel_spec(
        program_id,
        accounts,
        name,
        cek,
        accepts(accounts[2], accounts[3]),
        cek_address(program_id, accounts, 2, 1),
    )
}

/// Creates a channel in an account that the program owns and that holds no
/// channel yet, and the cek account that makes the creator its first member.
pub fn initialize_channel(
    program_id: &Address,
    accounts: &[Account],
    name: String,
    cek: EncryptedKeyData,
) -> (outcome: Result<Vec<AccountUpdate>, ProcessError>)
    ensures
        outcome_view(outcome) == initialize_channel_outcome(
            program_id@,
            views(accounts@),
            name@,
            cek@,
        ),
{
    if accounts.len() < 7 {
        return Err(ProcessError::NotEnoughAccountKeys);
    }
    let accepted = ask_identity(&accounts[2], &accounts[3]);
    let cek_address = get_cek_account_address_with_seed(
        program_id,
        &accounts[2].key,
        &accounts[1].key,
    );
    initialize_channel_given(program_id, accounts, name, cek, accepted, cek_address)
}

/// What the ledger derives and prints for `InitializeDirectChannel`: the
/// address of the channel, the addresses of the cek accounts of the creator
/// and of the invitee, and the text forms of the two DIDs.
pub struct DirectChannelFacts {
    /// The address derived for the channel between the two DIDs
    pub channel_address: Option<(Address, u8)>,
    /// The address derived for the cek account of the creator
    pub creator_cek_address: Option<(Address, u8)>,
    /// The address derived for the cek account of the invitee
    pub invitee_cek_address: Option<(Address, u8)>,
    /// The name of the channel
    pub name: String,
}

/// What the ledger derives and prints for `InitializeDirectChannel`, as a
/// value of sequences.
pub struct DirectChannelFactsView {
    pub channel_address: Option<(Seq<u8>, u8)>,
    pub creator_cek_address: Option<(Seq<u8>, u8)>,
    pub invitee_cek_address: Option<(Seq<u8>, u8)>,
    pub name: Seq<char>,
}

impl View for DirectChannelFacts {
    type V = DirectChannelFactsView;

    open spec fn view(&self) -> DirectChannelFactsView {
        DirectChannelFactsView {
            channel_address: derived_view(self.channel_address),
            creator_cek_address: derived_view(self.creator_cek_address),
            invitee_cek_address: derived_view(self.invitee_cek_address),
            name: self.name@,
        }
    }
}

/// Where `InitializeDirectChannel` finds the accounts of the creation of the
/// creator's cek account.
pub open spec fn direct_channel_creator_places() -> CekPlaces {
    CekPlaces { funder: 0, did: 2, cek_account: 4, channel: 1, rent: 7, system_program: 8 }
}

/// Where `InitializeDirectChannel` finds the accounts of the creation of the
/// invitee's cek account.
pub open spec fn direct_channel_invitee_places() -> CekPlaces {
    CekPlaces { funder: 0, did: 5, cek_account: 6, channel: 1, rent: 7, system_program: 8 }
}

/// What `InitializeDirectChannel` does, given the answer of the identity
/// program and what the ledger derives. The accounts are, in this order: the
/// funding account, the channel, the creator DID, the creator authority, the
/// creator cek account, the invitee DID, the invitee cek account, the rent
/// rules, the system program.
pub open spec fn initialize_direct_channel_spec(
    program_id: Seq<u8>,
    accounts: Seq<AccountView>,
    creator_cek: EncryptedKeyView,
    invitee_cek: EncryptedKeyView,
    accepted: bool,
    facts: DirectChannelFactsView,
) -> Result<Seq<UpdateView>, ProcessError> {
    if accounts.len() < 9 {
        Err(ProcessError::NotEnoughAccountKeys)
    } else if rent_failure(accounts[7]) is Some {
        Err(rent_failure(accounts[7]).unwrap())
    } else if address_failure(facts.channel_address, accounts[1].key) is Some {
        Err(address_failure(facts.channel_address, accounts[1].key).unwrap())
    } else if accounts[1].data.len() > 0 {
        Err(ProcessError::Custom(SolariumError::AlreadyInUse))
    } else if authority_failure(accounts[3], accepted) is Some {
        Err(authority_failure(accounts[3], accepted).unwrap())
    } else {
        match create_cek_account_spec(
            accounts,
            direct_channel_creator_places(),
            creator_cek,
            facts.creator_cek_address,
        ) {
            Err(e) => Err(e),
            Ok(creator_update) => match create_cek_account_spec(
                accounts,
                direct_channel_invitee_places(),
                invitee_cek,
                facts.invitee_cek_address,
            ) {
                Err(e) => Err(e),
                Ok(invitee_update) => match record_update::<ChannelData>(
                    1,
                    Some(
                        AllocationView {
                            funder: 0,
                            rent: 7,
                            system_program: 8,
                            space: 4160,
                            seeds: channel_seeds(accounts[2].key, accounts[5].key).push(
                                seq![facts.channel_address.unwrap().1],
                            ),
                        },
                    ),
                    ChannelView { name: facts.name, messages: Seq::empty() },
                    4160,
                ) {
                    Err(e) => Err(e),
                    Ok(channel_update) => Ok(seq![creator_update, invitee_update, channel_update]),
                },
            },
        }
    }
}

/// Decides `InitializeDirectChannel`, given the answer of the identity
/// program and what the ledger derives.
pub fn initialize_direct_channel_given(
    program_id: &Address,
    accounts: &[Account],
    creator_cek: EncryptedKeyData,
    invitee_cek: EncryptedKeyData,
    accepted: bool,
    facts: DirectChannelFacts,
) -> (outcome: Result<Vec<AccountUpdate>, ProcessError>)
    ensures
        outcome_view(outcome) == initialize_direct_channel_spec(
            program_id@,
            views(accounts@),
            creator_cek@,
            invitee_cek@,
            accepted,
            facts@,
        ),
{
    if accounts.len() < 9 {
        return Err(ProcessError::NotEnoughAccountKeys);
    }
    let channel_info = &accounts[1];
    let creator_did = &accounts[2];
    let invitee_did = &accounts[5];
    check_rent(&accounts[7])?;
    // Check that the new direct channel address has been derived correctly
    // for the creator and invitee
    let bump = check_address(facts.channel_address, &channel_info.key)?;
    if channel_info.data.len() > 0 {
        return Err(ProcessError::Custom(SolariumError::AlreadyInUse));
    }
    // Check that the authority is valid for the DID
    check_authority_of_did(&accounts[3], accepted)?;
    let creator = CekPlaces {
        funder: 0,
        did: 2,
        cek_account: 4,
        channel: 1,
        rent: 7,
        system_program: 8,
    };
    let invitee = CekPlaces {
        funder: 0,
        did: 5,
        cek_account: 6,
        channel: 1,
        rent: 7,
        system_program: 8,
    };
    let creator_update = create_cek_account(
        accounts,
        creator,
        creator_cek,
        facts.creator_cek_address,
    )?;
    let invitee_update = create_cek_account(
        accounts,
        invitee,
        invitee_cek,
        facts.invitee_cek_address,
    )?;
    let size = ChannelData::size_bytes();
    let seeds = signer_seeds(channel_seed_list(&creator_did.key, &invitee_did.key), bump);
    let allocation = Allocation { funder: 0, rent: 7, system_program: 8, space: size, seeds };
    let channel = ChannelData::new(facts.name);
    let channel_update = write_record::<ChannelData>(1, Some(allocation), &channel, 4160)?;
    let mut updates: Vec<AccountUpdate> = Vec::new();
    updates.push(creator_update);
    updates.push(invitee_update);
    updates.push(channel_update);
    assert(views(updates@) =~= seq![creator_update@, invitee_update@, channel_update@]);
    Ok(updates)
}

/// What `InitializeDirectChannel` does.
pub open spec fn initialize_direct_channel_outcome(
    program_id: Seq<u8>,
    accounts: Seq<AccountView>,
    creator_cek: EncryptedKeyView,
    invitee_cek: EncryptedKeyView,
) -> Result<Seq<UpdateView>, ProcessError> {
    initialize_direct_channel_spec(
        program_id,
        accounts,
        creator_cek,
        invitee_cek,
        accepts(accounts[2], accounts[3]),
        DirectChannelFactsView {
            channel_address: program_address(
                channel_seeds(accounts[2].key, accounts[5].key),
                program_id,
            ),
            creator_cek_address: cek_address(program_id, accounts, 2, 1),
            invitee_cek_address: cek_address(program_id, accounts, 5, 1),
            name: direct_channel_name_spec(accounts[2].key, accounts[5].key),
        },
    )
}

/// Creates the channel between two DIDs at the address derived for the two,
/// and the cek accounts that make both its members.
pub fn initialize_direct_channel(
    program_id: &Address,
    accounts: &[Account],
    creator_cek: EncryptedKeyData,
    invitee_cek: EncryptedKeyData,
) -> (outcome: Result<Vec<AccountUpdate>, ProcessError>)
    ensures
        outcome_view(outcome) == initialize_direct_channel_outcome(
            program_id@,
            views(accounts@),
            creator_cek@,
            invitee_cek@,
        ),
{
    if accounts.len() < 9 {
        return Err(ProcessError::NotEnoughAccountKeys);
    }
    let channel = &accounts[1].key;
    let creator = &accounts[2].key;
    let invitee = &accounts[5].key;
    let accepted = ask_identity(&accounts[2], &accounts[3]);
    let facts = DirectChannelFacts {
        channel_address: get_channel_address_with_seed(program_id, creator, invitee),
        creator_cek_address: get_cek_account_address_with_seed(program_id, creator, channel),
        invitee_cek_address: get_cek_account_address_with_seed(program_id, invitee, channel),
        name: direct_channel_name(creator, invitee),
    };
    initialize_direct_channel_given(program_id, accounts, creator_cek, invitee_cek, accepted, facts)
}

/// What `Post` does, given the answer of the identity program. The accounts
/// are, in this order: the channel, the sender DID, the sender authority, the
/// sender's cek account for the channel.
pub open spec fn post_spec(
    program_id: Seq<u8>,
    accounts: Seq<AccountView>,
    message: Seq<char>,
    clock: Option<i64>,
    accepted: bool,
) -> Result<Seq<UpdateView>, ProcessError> {
    if accounts.len() < 4 {
        Err(ProcessError::NotEnoughAccountKeys)
    } else if record_of::<ChannelData>(accounts[0].data) is None {
        Err(ProcessError::BorshIoError)
    } else if !record_of::<ChannelData>(accounts[0].data).unwrap().is_initialized() {
        Err(ProcessError::UninitializedAccount)
    } else if cek_authority_failure(program_id, accounts[2], accounts[1], accounts[3], accepted)
        is Some {
        Err(
            cek_authority_failure(
                program_id,
                accounts[2],
                accounts[1],
                accounts[3],
                accepted,
            ).unwrap(),
        )
    } else if cek_channel_failure(program_id, accounts[3], accounts[0]) is Some {
        Err(cek_channel_failure(program_id, accounts[3], accounts[0]).unwrap())
    } else if encode_utf8(message).len() > ChannelData::MESSAGE_SIZE {
        Err(ProcessError::Custom(SolariumError::Overflow))
    } else if clock is None {
        Err(ProcessError::UnsupportedSysvar)
    } else {
        single(
            record_update::<ChannelData>(
                0,
                None,
                record_of::<ChannelData>(accounts[0].data).unwrap().post(
                    MessageView { timestamp: 0, sender: accounts[1].key, content: message },
                    clock.unwrap(),
                ),
                accounts[0].data.len() as int,
            ),
        )
    }
}

/// Decides `Post`, given the answer of the identity program.
pub fn post_given(
    program_id: &Address,
    accounts: &[Account],
    message: String,
    clock: Option<i64>,
    accepted: bool,
) -> (outcome: Result<Vec<AccountUpdate>, ProcessError>)
    ensures
        outcome_view(outcome) == post_spec(
            program_id@,
            views(accounts@),
            message@,
            clock,
            accepted,
        ),
{
    if accounts.len() < 4 {
        return Err(ProcessError::NotEnoughAccountKeys);
    }
    let channel_info = &accounts[0];
    let sender_did = &accounts[1];
    let channel = match decode::<ChannelData>(channel_info.data.as_slice()) {
        Some(channel) => channel,
        None => {
            return Err(ProcessError::BorshIoError);
        },
    };
    if !channel.is_initialized() {
        return Err(ProcessError::UninitializedAccount);
    }
    // Check that the sender signer is an authority on the DID,
    // and that the sender is allowed to post to this channel
    check_authority_of_cek(program_id, &accounts[2], sender_did, &accounts[3], accepted)?;
    check_cek_account(program_id, &accounts[3], channel_info)?;
    if message_too_long(&message) {
        return Err(ProcessError::Custom(SolariumError::Overflow));
    }
    let now = match clock {
        Some(now) => now,
        None => {
            return Err(ProcessError::UnsupportedSysvar);
        },
    };
    let update = append_message(channel, sender_did.key, message, now, channel_info.data.len());
    single_update(update)
}

fn message_too_long(message: &String) -> (too_long: bool)
    ensures
        too_long == (encode_utf8(message@).len() > ChannelData::MESSAGE_SIZE),
{
    message.as_str().as_bytes().len() > ChannelData::MESSAGE_SIZE as usize
}

/// Prepares the update that writes the channel with one more message.
fn append_message(
    channel: ChannelData,
    sender: Address,
    message: String,
    now: i64,
    room: usize,
) -> (step: Result<AccountUpdate, ProcessError>)
    ensures
        step_view(step) == record_update::<ChannelData>(
            0,
            None,
            channel@.post(MessageView { timestamp: 0, sender: sender@, content: message@ }, now),
            room as int,
        ),
{
    let mut channel = channel;
    channel.post(Message::new(sender, message), now);
    write_record::<ChannelData>(0, None, &channel, room)
}

/// What `Post` does.
pub open spec fn post_outcome(
    program_id: Seq<u8>,
    accounts: Seq<AccountView>,
    message: Seq<char>,
    clock: Option<i64>,
) -> Result<Seq<UpdateView>, ProcessError> {
    post_spec(program_id, accounts, message, clock, accepts(accounts[1], accounts[2]))
}

/// Posts a message to a channel for a sender whose authority signed and whose
/// cek account is one for the channel. The message gets the time of the
/// ledger. A message of more bytes than `ChannelData::MESSAGE_SIZE` is refused.
pub fn post(
    program_id: &Address,
    accounts: &[Account],
    message: String,
    clock: Option<i64>,
) -> (outcome: Result<Vec<AccountUpdate>, ProcessError>)
    ensures
        outcome_view(outcome) == post_outcome(program_id@, views(accounts@), message@, clock),
{
    if accounts.len() < 4 {
        return Err(ProcessError::NotEnoughAccountKeys);
    }
    let accepted = ask_identity(&accounts[1], &accounts[2]);
    post_given(program_id, accounts, message, clock, accepted)
}

/// Where `AddToChannel` finds the accounts of the creation of the cek account.
pub open spec fn add_to_channel_places() -> CekPlaces {
    CekPlaces { funder: 0, did: 1, cek_account: 5, channel: 6, rent: 7, system_program: 8 }
}

/// What `AddToChannel` does, given the answer of the identity program and the
/// address derived for the invitee's cek account. The accounts are, in this
/// order: the funding account, the invitee DID, the inviter DID, the inviter
/// authority, the inviter cek account, the invitee cek account, the channel,
/// the rent rules, the system program.
pub open spec fn add_to_channel_spec(
    program_id: Seq<u8>,
    accounts: Seq<AccountView>,
    cek: EncryptedKeyView,
    accepted: bool,
    cek_address: Option<(Seq<u8>, u8)>,
) -> Result<Seq<UpdateView>, ProcessError> {
    if accounts.len() < 9 {
        Err(ProcessError::NotEnoughAccountKeys)
    } else if rent_failure(accounts[7]) is Some {
        Err(rent_failure(accounts[7]).unwrap())
    } else if cek_channel_failure(program_id, accounts[4], accounts[6]) is Some {
        Err(cek_channel_failure(program_id, accounts[4], accounts[6]).unwrap())
    } else if cek_authority_failure(program_id, accounts[3], accounts[2], accounts[4], accepted)
        is Some {
        Err(
            cek_authority_failure(
                program_id,
                accounts[3],
                accounts[2],
                accounts[4],
                accepted,
            ).unwrap(),
        )
    } else {
        single(create_cek_account_spec(accounts, add_to_channel_places(), cek, cek_address))
    }
}

/// Decides `AddToChannel`, given the answer of the identity program and the
/// address derived for the invitee's cek account.
pub fn add_to_channel_given(
    program_id: &Address,
    accounts: &[Account],
    cek: EncryptedKeyData,
    accepted: bool,
    cek_address: Option<(Address, u8)>,
) -> (outcome: Result<Vec<AccountUpdate>, ProcessError>)
    ensures
        outcome_view(outcome) == add_to_channel_spec(
            program_id@,
            views(accounts@),
            cek@,
            accepted,
            derived_view(cek_address),
        ),
{
    if accounts.len() < 9 {
        return Err(ProcessError::NotEnoughAccountKeys);
    }
    check_rent(&accounts[7])?;
    // Check that the inviter has permissions to invite to this channel
    check_cek_account(program_id, &accounts[4], &accounts[6])?;
    // Check that the inviter signer is valid for the DID
    // and that the inviter DID owns the inviter CEK account
    check_authority_of_cek(program_id, &accounts[3], &accounts[2], &accounts[4], accepted)?;
    let at = CekPlaces {
        funder: 0,
        did: 1,
        cek_account: 5,
        channel: 6,
        rent: 7,
        system_program: 8,
    };
    single_update(create_cek_account(accounts, at, cek, cek_address))
}

/// What `AddToChannel` does.
pub open spec fn add_to_channel_outcome(
    program_id: Seq<u8>,
    accounts: Seq<AccountView>,
    cek: EncryptedKeyView,
) -> Result<Seq<UpdateView>, ProcessError> {
    add_to_channel_spec(
        program_id,
        accounts,
        cek,
        accepts(accounts[2], accounts[3]),
        cek_address(program_id, accounts, 1, 6),
    )
}

/// Creates the cek account that makes the invitee a member of the channel,
/// for an inviter who is a member.
pub fn add_to_channel(
    program_id: &Address,
    accounts: &[Account],
    cek: EncryptedKeyData,
) -> (outcome: Result<Vec<AccountUpdate>, ProcessError>)
    ensures
        outcome_view(outcome) == add_to_channel_outcome(program_id@, views(accounts@), cek@),
{
    if accounts.len() < 9 {
        return Err(ProcessError::NotEnoughAccountKeys);
    }
    let accepted = ask_identity(&accounts[2], &accounts[3]);
    let cek_address = get_cek_account_address_with_seed(
        program_id,
        &accounts[1].key,
        &accounts[6].key,
    );
    add_to_channel_given(program_id, accounts, cek, accepted, cek_address)
}

/// What `CreateUserDetails` does, given the answer of the identity program
/// and the address derived for the user details of the DID. The accounts are,
/// in this order: the funding account, the DID, the authority, the user
/// details account, the rent rules, the system program.
pub open spec fn create_user_details_spec(
    program_id: Seq<u8>,
    accounts: Seq<AccountView>,
    details: UserDetailsView,
    size: u32,
    accepted: bool,
    derived: Option<(Seq<u8>, u8)>,
) -> Result<Seq<UpdateView>, ProcessError> {
    if accounts.len() < 6 {
        Err(ProcessError::NotEnoughAccountKeys)
    } else if rent_failure(accounts[4]) is Some {
        Err(rent_failure(accounts[4]).unwrap())
    } else if accounts[3].data.len() > 0 {
        Err(ProcessError::Custom(SolariumError::AlreadyInUse))
    } else if authority_failure(accounts[2], accepted) is Some {
        Err(authority_failure(accounts[2], accepted).unwrap())
    } else if address_failure(derived, accounts[3].key) is Some {
        Err(address_failure(derived, accounts[3].key).unwrap())
    } else {
        single(
            record_update::<UserDetails>(
                3,
                Some(
                    AllocationView {
                        funder: 0,
                        rent: 4,
                        system_program: 5,
                        space: size as u64,
                        seeds: userdetails_account_seeds(accounts[1].key).push(
                            seq![derived.unwrap().1],
                        ),
                    },
                ),
                details,
                size as int,
            ),
        )
    }
}

/// Decides `CreateUserDetails`, given the answer of the identity program and
/// the address derived for the user details of the DID.
pub fn create_user_details_given(
    program_id: &Address,
    accounts: &[Account],
    details: UserDetails,
    size: u32,
    accepted: bool,
    derived: Option<(Address, u8)>,
) -> (outcome: Result<Vec<AccountUpdate>, ProcessError>)
    ensures
        outcome_view(outcome) == create_user_details_spec(
            program_id@,
            views(accounts@),
            details@,
            size,
            accepted,
            derived_view(derived),
        ),
{
    if accounts.len() < 6 {
        return Err(ProcessError::NotEnoughAccountKeys);
    }
    let did = &accounts[1];
    let user_details_info = &accounts[3];
    check_rent(&accounts[4])?;
    if user_details_info.data.len() > 0 {
        return Err(ProcessError::Custom(SolariumError::AlreadyInUse));
    }
    // Check that the authority is valid for the DID
    check_authority_of_did(&accounts[2], accepted)?;
    let bump = check_address(derived, &user_details_info.key)?;
    let seeds = signer_seeds(userdetails_account_seed_list(&did.key), bump);
    let allocation = Allocation {
        funder: 0,
        rent: 4,
        system_program: 5,
        space: size as u64,
        seeds,
    };
    single_update(write_record::<UserDetails>(3, Some(allocation), &details, size as usize))
}

/// The address that the ledger derives for the user details of the DID at `did`.
pub open spec fn user_details_address(
    program_id: Seq<u8>,
    accounts: Seq<AccountView>,
    did: int,
) -> Option<(Seq<u8>, u8)> {
    program_address(userdetails_account_seeds(accounts[did].key), program_id)
}

/// What `CreateUserDetails` does.
pub open spec fn create_user_details_outcome(
    program_id: Seq<u8>,
    accounts: Seq<AccountView>,
    details: UserDetailsView,
    size: u32,
) -> Result<Seq<UpdateView>, ProcessError> {
    create_user_details_spec(
        program_id,
        accounts,
        details,
        size,
        accepts(accounts[1], accounts[2]),
        user_details_address(program_id, accounts, 1),
    )
}

/// Creates the user details account of a DID at the address derived for the DID.
pub fn create_user_details(
    program_id: &Address,
    accounts: &[Account],
    alias: String,
    address_book: String,
    user_public_key: UserPubKey,
    encrypted_user_private_key_data: Vec<EncryptedKeyData>,
    size: u32,
) -> (outcome: Result<Vec<AccountUpdate>, ProcessError>)
    ensures
        outcome_view(outcome) == create_user_details_outcome(
            program_id@,
            views(accounts@),
            UserDetailsView {
                alias: alias@,
                address_book: address_book@,
                encrypted_user_private_key_data: views(encrypted_user_private_key_data@),
                user_public_key: user_public_key@,
            },
            size,
        ),
{
    if accounts.len() < 6 {
        return Err(ProcessError::NotEnoughAccountKeys);
    }
    let accepted = ask_identity(&accounts[1], &accounts[2]);
    let derived = get_userdetails_account_address_with_seed(program_id, &accounts[1].key);
    // Create the new userdetails account for the solarium user
    let details = UserDetails {
        alias,
        address_book,
        user_public_key,
        encrypted_user_private_key_data,
    };
    create_user_details_given(program_id, accounts, details, size, accepted, derived)
}

/// How an instruction changes user details that exist.
pub enum UserDetailsChange {
    /// The alias and the address book are replaced
    Update { alias: String, address_book: String },
    /// A key is added
    AddKey { key_data: EncryptedKeyData },
    /// The first key with the key ID is removed
    RemoveKey { kid: Kid },
}

/// A change of user details as a value of sequences.
pub enum UserDetailsChangeView {
    Update { alias: Seq<char>, address_book: Seq<char> },
    AddKey { key_data: EncryptedKeyView },
    RemoveKey { kid: Seq<u8> },
}

impl View for UserDetailsChange {
    type V = UserDetailsChangeView;

    open spec fn view(&self) -> UserDetailsChangeView {
        match *self {
            UserDetailsChange::Update { alias, address_book } => UserDetailsChangeView::Update {
                alias: alias@,
                address_book: address_book@,
            },
            UserDetailsChange::AddKey { key_data } => UserDetailsChangeView::AddKey {
                key_data: key_data@,
            },
            UserDetailsChange::RemoveKey { kid } => UserDetailsChangeView::RemoveKey { kid: kid@ },
        }
    }
}

/// The user details after a change, or the error: an update needs details
/// that are initialized, and a removal a key with the key ID.
pub open spec fn changed_details(details: UserDetailsView, change: UserDetailsChangeView) -> Result<
    UserDetailsView,
    ProcessError,
> {
    match change {
        UserDetailsChangeView::Update { alias, address_book } => if details.is_initialized() {
            Ok(UserDetailsView { alias, address_book, ..details })
        } else {
            Err(ProcessError::UninitializedAccount)
        },
        UserDetailsChangeView::AddKey { key_data } => Ok(
            details.with_keys(details.encrypted_user_private_key_data.push(key_data)),
        ),
        UserDetailsChangeView::RemoveKey { kid } => if details.has_kid(kid) {
            Ok(details.remove_key(kid))
        } else {
            Err(ProcessError::Custom(SolariumError::KeyNotFound))
        },
    }
}

/// What `UpdateUserDetails`, `AddEncryptedUserKey` and
/// `RemoveEncryptedUserKey` do, given the answer of the identity program and
/// the address derived for the user details of the DID. The accounts are, in
/// this order: the DID, the authority, the user details account.
pub open spec fn change_user_details_spec(
    program_id: Seq<u8>,
    accounts: Seq<AccountView>,
    change: UserDetailsChangeView,
    accepted: bool,
    derived: Option<(Seq<u8>, u8)>,
) -> Result<Seq<UpdateView>, ProcessError> {
    if accounts.len() < 3 {
        Err(ProcessError::NotEnoughAccountKeys)
    } else if user_details_authority_failure(
        program_id,
        accounts[1],
        accounts[2],
        accepted,
        derived,
    ) is Some {
        Err(
            user_details_authority_failure(
                program_id,
                accounts[1],
                accounts[2],
                accepted,
                derived,
            ).unwrap(),
        )
    } else if record_of::<UserDetails>(accounts[2].data) is None {
        Err(ProcessError::BorshIoError)
    } else {
        match changed_details(record_of::<UserDetails>(accounts[2].data).unwrap(), change) {
            Err(e) => Err(e),
            Ok(details) => single(
                record_update::<UserDetails>(2, None, details, accounts[2].data.len() as int),
            ),
        }
    }
}

/// Changes user details that were read from an account.
pub fn change_details(details: UserDetails, change: UserDetailsChange) -> (changed: Result<
    UserDetails,
    ProcessError,
>)
    ensures
        match changed_details(details@, change@) {
            Ok(after) => changed matches Ok(d) && d@ == after,
            Err(e) => changed matches Err(error) && error == e,
        },
{
    let mut details = details;
    match change {
        UserDetailsChange::Update { alias, address_book } => {
            if !details.is_initialized() {
                return Err(ProcessError::UninitializedAccount);
            }
            // mutate the UserDetails object
            details.alias = alias;
            details.address_book = address_book;
        },
        UserDetailsChange::AddKey { key_data } => {
            details.add_key(key_data);
        },
        UserDetailsChange::RemoveKey { kid } => {
            match details.remove_key(kid) {
                Ok(()) => {},
                Err(e) => {
                    return Err(ProcessError::Custom(e));
                },
            }
        },
    }
    Ok(details)
}

/// Decides a change of user details, given the answer of the identity
/// program and the address derived for the user details of the DID.
pub fn change_user_details_given(
    program_id: &Address,
    accounts: &[Account],
    change: UserDetailsChange,
    accepted: bool,
    derived: Option<(Address, u8)>,
) -> (outcome: Result<Vec<AccountUpdate>, ProcessError>)
    ensures
        outcome_view(outcome) == change_user_details_spec(
            program_id@,
            views(accounts@),
            change@,
            accepted,
            derived_view(derived),
        ),
{
    if accounts.len() < 3 {
        return Err(ProcessError::NotEnoughAccountKeys);
    }
    let user_details_info = &accounts[2];
    // Check that the signer is valid for the DID
    // and that the DID owns the user details account
    check_authority_of_user_details(
        program_id,
        &accounts[1],
        user_details_info,
        accepted,
        derived,
    )?;
    let details = match decode::<UserDetails>(user_details_info.data.as_slice()) {
        Some(details) => details,
        None => {
            return Err(ProcessError::BorshIoError);
        },
    };
    let changed = change_details(details, change)?;
    single_update(write_record::<UserDetails>(2, None, &changed, user_details_info.data.len()))
}

/// What a change of user details does.
pub open spec fn change_user_details_outcome(
    program_id: Seq<u8>,
    accounts: Seq<AccountView>,
    change: UserDetailsChangeView,
) -> Result<Seq<UpdateView>, ProcessError> {
    change_user_details_spec(
        program_id,
        accounts,
        change,
        accepts(accounts[0], accounts[1]),
        user_details_address(program_id, accounts, 0),
    )
}

fn change_user_details(
    program_id: &Address,
    accounts: &[Account],
    change: UserDetailsChange,
) -> (outcome: Result<Vec<AccountUpdate>, ProcessError>)
    ensures
        outcome_view(outcome) == change_user_details_outcome(
            program_id@,
            views(accounts@),
            change@,
        ),
{
    if accounts.len() < 3 {
        return Err(ProcessError::NotEnoughAccountKeys);
    }
    let accepted = ask_identity(&accounts[0], &accounts[1]);
    let derived = get_userdetails_account_address_with_seed(program_id, &accounts[0].key);
    change_user_details_given(program_id, accounts, change, accepted, derived)
}

/// Replaces the alias and the address book of the user details of a DID.
pub fn update_user_details(
    program_id: &Address,
    accounts: &[Account],
    alias: String,
    address_book: String,
) -> (outcome: Result<Vec<AccountUpdate>, ProcessError>)
    ensures
        outcome_view(outcome) == change_user_details_outcome(
            program_id@,
            views(accounts@),
            UserDetailsChangeView::Update { alias: alias@, address_book: address_book@ },
        ),
{
    change_user_details(program_id, accounts, UserDetailsChange::Update { alias, address_book })
}

/// Adds a key to the user details of a DID.
pub fn add_encrypted_user_key(
    program_id: &Address,
    accounts: &[Account],
    key_data: EncryptedKeyData,
) -> (outcome: Result<Vec<AccountUpdate>, ProcessError>)
    ensures
        outcome_view(outcome) == change_user_details_outcome(
            program_id@,
            views(accounts@),
            UserDetailsChangeView::AddKey { key_data: key_data@ },
        ),
{
    change_user_details(program_id, accounts, UserDetailsChange::AddKey { key_data })
}

/// Removes a key by key ID from the user details of a DID.
pub fn remove_encrypted_user_key(program_id: &Address, accounts: &[Account], kid: Kid) -> (outcome:
    Result<Vec<AccountUpdate>, ProcessError>)
    ensures
        outcome_view(outcome) == change_user_details_outcome(
            program_id@,
            views(accounts@),
            UserDetailsChangeView::RemoveKey { kid: kid@ },
        ),
{
    change_user_details(program_id, accounts, UserDetailsChange::RemoveKey { kid })
}

/// What `CreateNotifications` does, given the answer of the identity program
/// and the address derived for the notifications of the DID. The accounts
/// are, in this order: the funding account, the DID, the authority, the
/// notifications account, the rent rules, the system program.
pub open spec fn create_notifications_spec(
    program_id: Seq<u8>,
    accounts: Seq<AccountView>,
    size: u8,
    accepted: bool,
    derived: Option<(Seq<u8>, u8)>,
) -> Result<Seq<UpdateView>, ProcessError> {
    let record = NotificationsView { notifications: Seq::empty(), size };
    if accounts.len() < 6 {
        Err(ProcessError::NotEnoughAccountKeys)
    } else if rent_failure(accounts[4]) is Some {
        Err(rent_failure(accounts[4]).unwrap())
    } else if accounts[3].data.len() > 0 {
        Err(ProcessError::Custom(SolariumError::AlreadyInUse))
    } else if authority_failure(accounts[2], accepted) is Some {
        Err(authority_failure(accounts[2], accepted).unwrap())
    } else if address_failure(derived, accounts[3].key) is Some {
        Err(address_failure(derived, accounts[3].key).unwrap())
    } else {
        single(
            record_update::<Notifications>(
                3,
                Some(
                    AllocationView {
                        funder: 0,
                        rent: 4,
                        system_program: 5,
                        space: record.size_bytes() as u64,
                        seeds: notifications_account_seeds(accounts[1].key).push(
                            seq![derived.unwrap().1],
                        ),
                    },
                ),
                record,
                record.size_bytes(),
            ),
        )
    }
}

/// Decides `CreateNotifications`, given the answer of the identity program
/// and the address derived for the notifications of the DID.
pub fn create_notifications_given(
    program_id: &Address,
    accounts: &[Account],
    size: u8,
    accepted: bool,
    derived: Option<(Address, u8)>,
) -> (outcome: Result<Vec<AccountUpdate>, ProcessError>)
    ensures
        outcome_view(outcome) == create_notifications_spec(
            program_id@,
            views(accounts@),
            size,
            accepted,
            derived_view(derived),
        ),
{
    if accounts.len() < 6 {
        return Err(ProcessError::NotEnoughAccountKeys);
    }
    let did = &accounts[1];
    let notifications_info = &accounts[3];
    check_rent(&accounts[4])?;
    if notifications_info.data.len() > 0 {
        return Err(ProcessError::Custom(SolariumError::AlreadyInUse));
    }
    // Check that the authority is valid for the DID
    check_authority_of_did(&accounts[2], accepted)?;
    let bump = check_address(derived, &notifications_info.key)?;
    // Create the new notifications account
    let notifications = Notifications::new(size);
    let space = notifications.size_bytes();
    let seeds = signer_seeds(notifications_account_seed_list(&did.key), bump);
    let allocation = Allocation { funder: 0, rent: 4, system_program: 5, space, seeds };
    single_update(
        write_record::<Notifications>(3, Some(allocation), &notifications, space as usize),
    )
}

/// What `CreateNotifications` does.
pub open spec fn create_notifications_outcome(
    program_id: Seq<u8>,
    accounts: Seq<AccountView>,
    size: u8,
) -> Result<Seq<UpdateView>, ProcessError> {
    create_notifications_spec(
        program_id,
        accounts,
        size,
        accepts(accounts[1], accounts[2]),
        program_address(notifications_account_seeds(accounts[1].key), program_id),
    )
}

/// Creates the notifications account of a DID at the address derived for the
/// DID, with room for `size` notifications.
pub fn create_notifications(program_id: &Address, accounts: &[Account], size: u8) -> (outcome:
    Result<Vec<AccountUpdate>, ProcessError>)
    ensures
        outcome_view(outcome) == create_notifications_outcome(
            program_id@,
            views(accounts@),
            size,
        ),
{
    if accounts.len() < 6 {
        return Err(ProcessError::NotEnoughAccountKeys);
    }
    let accepted = ask_identity(&accounts[1], &accounts[2]);
    let derived = get_notifications_account_address_with_seed(program_id, &accounts[1].key);
    create_notifications_given(program_id, accounts, size, accepted, derived)
}

/// What `AddNotification` does, given the answer of the identity program.
/// The accounts are, in this order: the notifications account, the sender
/// DID, the sender authority.
pub open spec fn add_notification_spec(
    program_id: Seq<u8>,
    accounts: Seq<AccountView>,
    notification: NotificationView,
    accepted: bool,
) -> Result<Seq<UpdateView>, ProcessError> {
    if accounts.len() < 3 {
        Err(ProcessError::NotEnoughAccountKeys)
    } else if record_of::<Notifications>(accounts[0].data) is None {
        Err(ProcessError::BorshIoError)
    } else if !record_of::<Notifications>(accounts[0].data).unwrap().is_initialized() {
        Err(ProcessError::UninitializedAccount)
    } else if accounts[0].owner != program_id {
        Err(ProcessError::IncorrectProgramId)
    } else if authority_failure(accounts[2], accepted) is Some {
        Err(authority_failure(accounts[2], accepted).unwrap())
    } else {
        single(
            record_update::<Notifications>(
                0,
                None,
                record_of::<Notifications>(accounts[0].data).unwrap().add(notification),
                accounts[0].data.len() as int,
            ),
        )
    }
}

/// Decides `AddNotification`, given the answer of the identity program.
pub fn add_notification_given(
    program_id: &Address,
    accounts: &[Account],
    notification_type: NotificationType,
    pubkey: &Address,
    accepted: bool,
) -> (outcome: Result<Vec<AccountUpdate>, ProcessError>)
    ensures
        outcome_view(outcome) == add_notification_spec(
            program_id@,
            views(accounts@),
            NotificationView { notification_type, pubkey: pubkey@ },
            accepted,
        ),
{
    if accounts.len() < 3 {
        return Err(ProcessError::NotEnoughAccountKeys);
    }
    let notifications_info = &accounts[0];
    let mut notifications = match decode::<Notifications>(notifications_info.data.as_slice()) {
        Some(notifications) => notifications,
        None => {
            return Err(ProcessError::BorshIoError);
        },
    };
    if !notifications.is_initialized() {
        return Err(ProcessError::UninitializedAccount);
    }
    if !same_address(&notifications_info.owner, program_id) {
        return Err(ProcessError::IncorrectProgramId);
    }
    // Check that the sender of the message is valid:
    // the sender signer is an authority on the DID.
    check_authority_of_did(&accounts[2], accepted)?;
    notifications.add(Notification { notification_type, pubkey: *pubkey });
    single_update(
        write_record::<Notifications>(0, None, &notifications, notifications_info.data.len()),
    )
}

/// What `AddNotification` does.
pub open spec fn add_notification_outcome(
    program_id: Seq<u8>,
    accounts: Seq<AccountView>,
    notification: NotificationView,
) -> Result<Seq<UpdateView>, ProcessError> {
    add_notification_spec(program_id, accounts, notification, accepts(accounts[1], accounts[2]))
}

/// Adds a notification to the notifications account of a DID. Any DID may
/// notify any other: the sender need only act with its own authority.
pub fn add_notification(
    program_id: &Address,
    accounts: &[Account],
    notification_type: NotificationType,
    pubkey: &Address,
) -> (outcome: Result<Vec<AccountUpdate>, ProcessError>)
    ensures
        outcome_view(outcome) == add_notification_outcome(
            program_id@,
            views(accounts@),
            NotificationView { notification_type, pubkey: pubkey@ },
        ),
{
    if accounts.len() < 3 {
        return Err(ProcessError::NotEnoughAccountKeys);
    }
    let accepted = ask_identity(&accounts[1], &accounts[2]);
    add_notification_given(program_id, accounts, notification_type, pubkey, accepted)
}

/// How a list of CEKs is changed.
pub enum CekListChange {
    /// A CEK is added
    Add { cek: CEKDataV1 },
    /// The first CEK with the key ID is removed
    Remove { kid: String },
}

/// A change of a list of CEKs as a value of sequences.
pub enum CekListChangeView {
    Add { cek: CEKDataV1View },
    Remove { kid: Seq<char> },
}

impl View for CekListChange {
    type V = CekListChangeView;

    open spec fn view(&self) -> CekListChangeView {
        match *self {
            CekListChange::Add { cek } => CekListChangeView::Add { cek: cek@ },
            CekListChange::Remove { kid } => CekListChangeView::Remove { kid: kid@ },
        }
    }
}

/// The list of CEKs after a change, or the error: a list takes no more CEKs
/// than `CEKAccountDataV1::MAX_CEKS`, and a removal needs a CEK with the key ID.
pub open spec fn changed_cek_list(list: CEKAccountV1View, change: CekListChangeView) -> Result<
    CEKAccountV1View,
    ProcessError,
> {
    match change {
        CekListChangeView::Add { cek } => if list.ceks.len() < CEKAccountDataV1::MAX_CEKS {
            Ok(CEKAccountV1View { ceks: list.ceks.push(cek), ..list })
        } else {
            Err(ProcessError::Custom(SolariumError::Overflow))
        },
        CekListChangeView::Remove { kid } => if list.has_kid(kid) {
            Ok(list.remove(kid))
        } else {
            Err(ProcessError::Custom(SolariumError::CEKNotFound))
        },
    }
}

/// What a change does to a cek account that holds a list of CEKs, one for
/// each key of the owner DID, given the answer of the identity program. The
/// accounts are, in this order: the owner DID, the owner authority, the cek
/// account.
pub open spec fn change_cek_list_spec(
    program_id: Seq<u8>,
    accounts: Seq<AccountView>,
    change: CekListChangeView,
    accepted: bool,
) -> Result<Seq<UpdateView>, ProcessError> {
    if accounts.len() < 3 {
        Err(ProcessError::NotEnoughAccountKeys)
    } else if cek_list_authority_failure(
        program_id,
        accounts[1],
        accounts[0],
        accounts[2],
        accepted,
    ) is Some {
        Err(
            cek_list_authority_failure(
                program_id,
                accounts[1],
                accounts[0],
                accounts[2],
                accepted,
            ).unwrap(),
        )
    } else {
        match changed_cek_list(record_of::<CEKAccountDataV1>(accounts[2].data).unwrap(), change) {
            Err(e) => Err(e),
            Ok(list) => single(
                record_update::<CEKAccountDataV1>(2, None, list, accounts[2].data.len() as int),
            ),
        }
    }
}

/// Decides a change of a cek account that holds a list of CEKs, given the
/// answer of the identity program.
pub fn change_cek_list_given(
    program_id: &Address,
    accounts: &[Account],
    change: CekListChange,
    accepted: bool,
) -> (outcome: Result<Vec<AccountUpdate>, ProcessError>)
    ensures
        outcome_view(outcome) == change_cek_list_spec(
            program_id@,
            views(accounts@),
            change@,
            accepted,
        ),
{
    if accounts.len() < 3 {
        return Err(ProcessError::NotEnoughAccountKeys);
    }
    let mut list = check_authority_of_cek_list(
        program_id,
        &accounts[1],
        &accounts[0],
        &accounts[2],
        accepted,
    )?;
    let changed = match change {
        CekListChange::Add { cek } => list.add(cek),
        CekListChange::Remove { kid } => list.remove(kid),
    };
    match changed {
        Ok(()) => {},
        Err(e) => {
            return Err(ProcessError::Custom(e));
        },
    }
    single_update(write_record::<CEKAccountDataV1>(2, None, &list, accounts[2].data.len()))
}

/// What a change does to a cek account that holds a list of CEKs.
pub open spec fn change_cek_list_outcome(
    program_id: Seq<u8>,
    accounts: Seq<AccountView>,
    change: CekListChangeView,
) -> Result<Seq<UpdateView>, ProcessError> {
    change_cek_list_spec(program_id, accounts, change, accepts(accounts[0], accounts[1]))
}

fn change_cek_list(program_id: &Address, accounts: &[Account], change: CekListChange) -> (outcome:
    Result<Vec<AccountUpdate>, ProcessError>)
    ensures
        outcome_view(outcome) == change_cek_list_outcome(program_id@, views(accounts@), change@),
{
    if accounts.len() < 3 {
        return Err(ProcessError::NotEnoughAccountKeys);
    }
    let accepted = ask_identity(&accounts[0], &accounts[1]);
    change_cek_list_given(program_id, accounts, change, accepted)
}

/// Adds a CEK to a cek account that holds a list of CEKs.
pub fn add_cek(program_id: &Address, accounts: &[Account], cek: CEKDataV1) -> (outcome: Result<
    Vec<AccountUpdate>,
    ProcessError,
>)
    ensures
        outcome_view(outcome) == change_cek_list_outcome(
            program_id@,
            views(accounts@),
            CekListChangeView::Add { cek: cek@ },
        ),
{
    change_cek_list(program_id, accounts, CekListChange::Add { cek })
}

/// Removes a CEK by key ID from a cek account that holds a list of CEKs.
pub fn remove_cek(program_id: &Address, accounts: &[Account], kid: String) -> (outcome: Result<
    Vec<AccountUpdate>,
    ProcessError,
>)
    ensures
        outcome_view(outcome) == change_cek_list_outcome(
            program_id@,
            views(accounts@),
            CekListChangeView::Remove { kid: kid@ },
        ),
{
    change_cek_list(program_id, accounts, CekListChange::Remove { kid })
}

/// What an instruction does to the accounts that the invocation names.
pub open spec fn instruction_outcome(
    program_id: Seq<u8>,
    accounts: Seq<AccountView>,
    instruction: InstructionView,
    clock: Option<i64>,
) -> Result<Seq<UpdateView>, ProcessError> {
    match instruction {
        InstructionView::InitializeChannel { name, cek } => initialize_channel_outcome(
            program_id,
            accounts,
            name,
            cek,
        ),
        InstructionView::InitializeDirectChannel { creator_cek, invitee_cek } => {
            initialize_direct_channel_outcome(program_id, accounts, creator_cek, invitee_cek)
        },
        InstructionView::Post { message } => post_outcome(program_id, accounts, message, clock),
        InstructionView::AddToChannel { cek } => add_to_channel_outcome(program_id, accounts, cek),
        InstructionView::AddEncryptedUserKey { key_data } => change_user_details_outcome(
            program_id,
            accounts,
            UserDetailsChangeView::AddKey { key_data },
        ),
        InstructionView::RemoveEncryptedUserKey { kid } => change_user_details_outcome(
            program_id,
            accounts,
            UserDetailsChangeView::RemoveKey { kid },
        ),
        InstructionView::CreateUserDetails {
            alias,
            address_book,
            user_pub_key,
            encrypted_user_private_key_data,
            size,
        } => create_user_details_outcome(
            program_id,
            accounts,
            UserDetailsView {
                alias,
                address_book,
                encrypted_user_private_key_data,
                user_public_key: user_pub_key,
            },
            size,
        ),
        InstructionView::UpdateUserDetails { alias, address_book } => {
            change_user_details_outcome(
                program_id,
                accounts,
                UserDetailsChangeView::Update { alias, address_book },
            )
        },
        InstructionView::CreateNotifications { size } => create_notifications_outcome(
            program_id,
            accounts,
            size,
        ),
        InstructionView::AddNotification { notification_type, pubkey } => {
            add_notification_outcome(
                program_id,
                accounts,
                NotificationView { notification_type, pubkey },
            )
        },
    }
}

/// What an invocation does: the buffer must hold an instruction, and the
/// instruction decides the rest.
pub open spec fn process_instruction_outcome(
    program_id: Seq<u8>,
    accounts: Seq<AccountView>,
    input: Seq<u8>,
    clock: Option<i64>,
) -> Result<Seq<UpdateView>, ProcessError> {
    match instruction_of(input) {
        Some(instruction) => instruction_outcome(program_id, accounts, instruction, clock),
        None => Err(ProcessError::BorshIoError),
    }
}

/// Instruction processor. `clock` is the time that the ledger reports, where
/// it reports one. Nothing is changed here: the updates that come back are
/// for the ledger to make, all of them or none.
pub fn process_instruction(
    program_id: &Address,
    accounts: &[Account],
    input: &[u8],
    clock: Option<i64>,
) -> (outcome: Result<Vec<AccountUpdate>, ProcessError>)
    ensures
        outcome_view(outcome) == process_instruction_outcome(
            program_id@,
            views(accounts@),
            input@,
            clock,
        ),
{
    let instruction = SolariumInstruction::try_from_slice(input)?;
    match instruction {
        SolariumInstruction::InitializeChannel { name, cek } => {
            initialize_channel(program_id, accounts, name, cek)
        },
        SolariumInstruction::InitializeDirectChannel { creator_cek, invitee_cek } => {
            initialize_direct_channel(program_id, accounts, creator_cek, invitee_cek)
        },
        SolariumInstruction::Post { message } => post(program_id, accounts, message, clock),
        SolariumInstruction::AddToChannel { cek } => add_to_channel(program_id, accounts, cek),
        SolariumInstruction::AddEncryptedUserKey { key_data } => {
            add_encrypted_user_key(program_id, accounts, key_data)
        },
        SolariumInstruction::RemoveEncryptedUserKey { kid } => {
            remove_encrypted_user_key(program_id, accounts, kid)
        },
        SolariumInstruction::CreateUserDetails {
            alias,
            address_book,
            user_pub_key,
            encrypted_user_private_key_data,
            size,
        } => create_user_details(
            program_id,
            accounts,
            alias,
            address_book,
            user_pub_key,
            encrypted_user_private_key_data,
            size,
        ),
        SolariumInstruction::UpdateUserDetails { alias, address_book } => {
            update_user_details(program_id, accounts, alias, address_book)
        },
        SolariumInstruction::CreateNotifications { size } => {
            create_notifications(program_id, accounts, size)
        },
        SolariumInstruction::AddNotification { notification_type, pubkey } => {
            add_notification(program_id, accounts, notification_type, &pubkey)
        },
    }
}

/// The lamports with which an account is funded, given the least balance
/// that the rent rules ask for its size: that balance, and at least one lamport.
pub fn funding_lamports(minimum_balance: u64) -> (lamports: u64)
    ensures
        lamports >= 1,
        lamports >= minimum_balance,
        lamports == minimum_balance || (lamports == 1 && minimum_balance == 0),
{
    if minimum_balance < 1 {
        1
    } else {
        minimum_balance
    }
}

} // verus!
