use solarium::address::{join_channel_name, Address, RENT_SYSVAR_ID};
use solarium::error::{ProcessError, SolariumError};
use solarium::instruction::{
    build, initialize_channel_account_list, AccountMeta, SolariumInstruction,
};
use solarium::processor::{
    add_notification_given, add_to_channel_given, change_cek_list_given, change_details,
    change_user_details_given, check_address, check_authority_of_did, check_rent,
    create_cek_account, create_notifications_given, create_user_details_given,
    initialize_channel_given, initialize_direct_channel_given, post_given, write_record,
    Account, AccountUpdate, Allocation, CekListChange, CekPlaces, DirectChannelFacts,
    UserDetailsChange,
};
use solarium::records::{decode, encode};
use solarium::state::{
    CEKAccountDataV1, CEKAccountDataV2, CEKDataV1, ChannelData, EncryptedKeyData,
    NotificationType, Notifications, UserDetails,
};

const PROGRAM_ID: Address = [7u8; 32];

fn account(key: u8, owner: Address, is_signer: bool, data: Vec<u8>) -> Account {
    Account { key: [key; 32], owner, is_signer, data }
}

fn rent() -> Account {
    Account { key: RENT_SYSVAR_ID, owner: [0u8; 32], is_signer: false, data: vec![0u8; 17] }
}

fn key_data() -> EncryptedKeyData {
    EncryptedKeyData { header: [1; 8], kid: *b"key1    ", encrypted_key: [2; 104] }
}

/// The accounts of `InitializeChannel`: the channel is 21, the DID 11, the
/// authority 1, the cek account 41.
fn channel_accounts() -> Vec<Account> {
    vec![
        account(3, [0u8; 32], true, vec![]),
        account(21, PROGRAM_ID, false, vec![0u8; 4160]),
        account(11, [9u8; 32], false, vec![1, 2, 3]),
        account(1, [0u8; 32], true, vec![]),
        account(41, [0u8; 32], false, vec![]),
        rent(),
        account(0, [0u8; 32], false, vec![]),
    ]
}

fn seeds_of_cek(did: u8, channel: u8, bump: u8) -> Vec<Vec<u8>> {
    vec![vec![did; 32], vec![channel; 32], b"solarium_cek_account".to_vec(), vec![bump]]
}

#[test]
fn authority_is_checked_against_the_answer() {
    let signer = account(1, [0u8; 32], true, vec![]);
    let silent = account(1, [0u8; 32], false, vec![]);
    assert_eq!(check_authority_of_did(&signer, true), Ok(()));
    assert_eq!(
        check_authority_of_did(&signer, false),
        Err(ProcessError::Custom(SolariumError::IncorrectAuthority))
    );
    assert_eq!(
        check_authority_of_did(&silent, true),
        Err(ProcessError::MissingRequiredSignature)
    );
    assert_eq!(
        check_authority_of_did(&silent, false),
        Err(ProcessError::MissingRequiredSignature)
    );
}

#[test]
fn address_is_checked_against_the_derived_one() {
    assert_eq!(check_address(Some(([5u8; 32], 254)), &[5u8; 32]), Ok(254));
    assert_eq!(
        check_address(Some(([5u8; 32], 254)), &[6u8; 32]),
        Err(ProcessError::Custom(SolariumError::AddressDerivationMismatch))
    );
    assert_eq!(check_address(None, &[5u8; 32]), Err(ProcessError::InvalidSeeds));
}

#[test]
fn rent_rules_are_checked() {
    assert_eq!(check_rent(&rent()), Ok(()));
    let mut short = rent();
    short.data.pop();
    assert_eq!(check_rent(&short), Err(ProcessError::InvalidArgument));
    assert_eq!(
        check_rent(&account(5, [0u8; 32], false, vec![0u8; 17])),
        Err(ProcessError::InvalidArgument)
    );
}

#[test]
fn record_is_written_where_it_fits() {
    let channel = ChannelData::new("general".to_string());
    let bytes = encode(&channel).unwrap();
    assert_eq!(bytes.len(), 15);
    assert_eq!(
        write_record(2, None, &channel, 15),
        Ok(AccountUpdate { account: 2, allocation: None, data: bytes })
    );
    assert_eq!(
        write_record(2, None, &channel, 14),
        Err(ProcessError::Custom(SolariumError::Overflow))
    );
}

#[test]
fn cek_account_creation() {
    let accounts = channel_accounts();
    let at =
        CekPlaces { funder: 0, did: 2, cek_account: 4, channel: 1, rent: 5, system_program: 6 };
    let update = create_cek_account(&accounts, at, key_data(), Some(([41u8; 32], 250))).unwrap();
    assert_eq!(update.account, 4);
    assert_eq!(
        update.allocation,
        Some(Allocation {
            funder: 0,
            rent: 5,
            system_program: 6,
            space: 184,
            seeds: seeds_of_cek(11, 21, 250),
        })
    );
    assert_eq!(
        decode::<CEKAccountDataV2>(&update.data),
        Some(CEKAccountDataV2::new([11u8; 32], [21u8; 32], key_data()))
    );
    assert_eq!(
        create_cek_account(&accounts, at, key_data(), Some(([42u8; 32], 250))),
        Err(ProcessError::Custom(SolariumError::AddressDerivationMismatch))
    );
    assert_eq!(
        create_cek_account(&accounts, at, key_data(), None),
        Err(ProcessError::InvalidSeeds)
    );
    let beyond = CekPlaces { cek_account: 7, ..at };
    assert_eq!(
        create_cek_account(&accounts, beyond, key_data(), Some(([41u8; 32], 250))),
        Err(ProcessError::NotEnoughAccountKeys)
    );
    let mut taken = channel_accounts();
    taken[4].data = vec![0];
    assert_eq!(
        create_cek_account(&taken, at, key_data(), None),
        Err(ProcessError::AccountAlreadyInitialized)
    );
}

#[test]
fn channel_is_initialized_given_the_answers() {
    let accounts = channel_accounts();
    let derived = Some(([41u8; 32], 250));
    let updates = initialize_channel_given(
        &PROGRAM_ID,
        &accounts,
        "general".to_string(),
        key_data(),
        true,
        derived,
    )
    .unwrap();
    assert_eq!(updates.len(), 2);
    assert_eq!(updates[0].account, 4);
    assert_eq!(
        updates[1],
        AccountUpdate {
            account: 1,
            allocation: None,
            data: encode(&ChannelData::new("general".to_string())).unwrap(),
        }
    );
    assert_eq!(
        initialize_channel_given(
            &PROGRAM_ID,
            &accounts,
            "general".to_string(),
            key_data(),
            false,
            derived
        ),
        Err(ProcessError::Custom(SolariumError::IncorrectAuthority))
    );
    assert_eq!(
        initialize_channel_given(
            &PROGRAM_ID,
            &accounts,
            "general".to_string(),
            key_data(),
            true,
            None
        ),
        Err(ProcessError::InvalidSeeds)
    );
    assert_eq!(
        initialize_channel_given(
            &PROGRAM_ID,
            &accounts[..6],
            "general".to_string(),
            key_data(),
            true,
            derived
        ),
        Err(ProcessError::NotEnoughAccountKeys)
    );
}

#[test]
fn direct_channel_is_initialized_given_the_answers() {
    let accounts = vec![
        account(3, [0u8; 32], true, vec![]),
        account(21, [0u8; 32], false, vec![]),
        account(11, [9u8; 32], false, vec![]),
        account(1, [0u8; 32], true, vec![]),
        account(41, [0u8; 32], false, vec![]),
        account(12, [9u8; 32], false, vec![]),
        account(42, [0u8; 32], false, vec![]),
        rent(),
        account(0, [0u8; 32], false, vec![]),
    ];
    let facts = |channel: u8| DirectChannelFacts {
        channel_address: Some(([channel; 32], 255)),
        creator_cek_address: Some(([41u8; 32], 254)),
        invitee_cek_address: Some(([42u8; 32], 253)),
        name: "alice/bob".to_string(),
    };
    let updates = initialize_direct_channel_given(
        &PROGRAM_ID,
        &accounts,
        key_data(),
        key_data(),
        true,
        facts(21),
    )
    .unwrap();
    assert_eq!(updates.len(), 3);
    assert_eq!((updates[0].account, updates[1].account, updates[2].account), (4, 6, 1));
    assert_eq!(updates[1].allocation.as_ref().unwrap().seeds, seeds_of_cek(12, 21, 253));
    assert_eq!(
        updates[2].allocation,
        Some(Allocation {
            funder: 0,
            rent: 7,
            system_program: 8,
            space: 4160,
            seeds: vec![vec![11; 32], vec![12; 32], b"solarium_channel".to_vec(), vec![255]],
        })
    );
    assert_eq!(
        decode::<ChannelData>(&updates[2].data),
        Some(ChannelData::new("alice/bob".to_string()))
    );
    assert_eq!(
        initialize_direct_channel_given(
            &PROGRAM_ID,
            &accounts,
            key_data(),
            key_data(),
            true,
            facts(22)
        ),
        Err(ProcessError::Custom(SolariumError::AddressDerivationMismatch))
    );
    assert_eq!(
        initialize_direct_channel_given(
            &PROGRAM_ID,
            &accounts,
            key_data(),
            key_data(),
            false,
            facts(21)
        ),
        Err(ProcessError::Custom(SolariumError::IncorrectAuthority))
    );
}

/// The accounts of `Post`: the channel is 21, the DID 11, the authority 1,
/// the cek account 41.
fn post_accounts() -> Vec<Account> {
    let mut channel = encode(&ChannelData::new("general".to_string())).unwrap();
    channel.resize(4160, 0);
    vec![
        account(21, PROGRAM_ID, false, channel),
        account(11, [9u8; 32], false, vec![]),
        account(1, [0u8; 32], true, vec![]),
        account(
            41,
            PROGRAM_ID,
            false,
            encode(&CEKAccountDataV2::new([11u8; 32], [21u8; 32], key_data())).unwrap(),
        ),
    ]
}

#[test]
fn post_is_decided_given_the_answer() {
    let accounts = post_accounts();
    let updates =
        post_given(&PROGRAM_ID, &accounts, "hello".to_string(), Some(77), true).unwrap();
    assert_eq!(updates.len(), 1);
    assert_eq!(updates[0].account, 0);
    assert_eq!(updates[0].allocation, None);
    let channel = decode::<ChannelData>(&updates[0].data).unwrap();
    assert_eq!(channel.messages.len(), 1);
    assert_eq!(channel.messages[0].timestamp, 77);
    assert_eq!(channel.messages[0].sender, [11u8; 32]);
    assert_eq!(channel.messages[0].content, "hello");
    assert_eq!(
        post_given(&PROGRAM_ID, &accounts, "hello".to_string(), Some(77), false),
        Err(ProcessError::Custom(SolariumError::IncorrectAuthority))
    );
    assert_eq!(
        post_given(&PROGRAM_ID, &accounts, "hello".to_string(), None, true),
        Err(ProcessError::UnsupportedSysvar)
    );
    let mut foreign = post_accounts();
    foreign[3].owner = [8u8; 32];
    assert_eq!(
        post_given(&PROGRAM_ID, &foreign, "hello".to_string(), Some(77), true),
        Err(ProcessError::IncorrectProgramId)
    );
    let mut other_owner = post_accounts();
    other_owner[1].key = [12u8; 32];
    assert_eq!(
        post_given(&PROGRAM_ID, &other_owner, "hello".to_string(), Some(77), true),
        Err(ProcessError::Custom(SolariumError::IncorrectAuthority))
    );
    let mut other_channel = post_accounts();
    other_channel[0].key = [22u8; 32];
    assert_eq!(
        post_given(&PROGRAM_ID, &other_channel, "hello".to_string(), Some(77), true),
        Err(ProcessError::Custom(SolariumError::CEKIncorrectChannel))
    );
    let mut no_record = post_accounts();
    no_record[3].data = vec![1];
    assert_eq!(
        post_given(&PROGRAM_ID, &no_record, "hello".to_string(), Some(77), true),
        Err(ProcessError::BorshIoError)
    );
}

#[test]
fn member_is_added_given_the_answers() {
    let post = post_accounts();
    let accounts = vec![
        account(3, [0u8; 32], true, vec![]),
        account(12, [9u8; 32], false, vec![]),
        post[1].clone(),
        post[2].clone(),
        post[3].clone(),
        account(42, [0u8; 32], false, vec![]),
        post[0].clone(),
        rent(),
        account(0, [0u8; 32], false, vec![]),
    ];
    let updates =
        add_to_channel_given(&PROGRAM_ID, &accounts, key_data(), true, Some(([42u8; 32], 9)))
            .unwrap();
    assert_eq!(updates.len(), 1);
    assert_eq!(updates[0].account, 5);
    assert_eq!(updates[0].allocation.as_ref().unwrap().seeds, seeds_of_cek(12, 21, 9));
    assert_eq!(
        decode::<CEKAccountDataV2>(&updates[0].data),
        Some(CEKAccountDataV2::new([12u8; 32], [21u8; 32], key_data()))
    );
    assert_eq!(
        add_to_channel_given(&PROGRAM_ID, &accounts, key_data(), false, Some(([42u8; 32], 9))),
        Err(ProcessError::Custom(SolariumError::IncorrectAuthority))
    );
}

fn details() -> UserDetails {
    UserDetails {
        alias: "Alice".to_string(),
        address_book: "".to_string(),
        encrypted_user_private_key_data: vec![key_data()],
        user_public_key: [5u8; 32],
    }
}

#[test]
fn user_details_are_created_given_the_answers() {
    let accounts = vec![
        account(3, [0u8; 32], true, vec![]),
        account(11, [9u8; 32], false, vec![]),
        account(1, [0u8; 32], true, vec![]),
        account(51, [0u8; 32], false, vec![]),
        rent(),
        account(0, [0u8; 32], false, vec![]),
    ];
    let derived = Some(([51u8; 32], 3));
    let updates =
        create_user_details_given(&PROGRAM_ID, &accounts, details(), 3072, true, derived).unwrap();
    assert_eq!(
        updates,
        vec![AccountUpdate {
            account: 3,
            allocation: Some(Allocation {
                funder: 0,
                rent: 4,
                system_program: 5,
                space: 3072,
                seeds: vec![vec![11; 32], b"solarium_userdetails_account".to_vec(), vec![3]],
            }),
            data: encode(&details()).unwrap(),
        }]
    );
    // the record takes 4 + 5 + 4 + 4 + 120 + 32 bytes
    assert!(
        create_user_details_given(&PROGRAM_ID, &accounts, details(), 169, true, derived).is_ok()
    );
    assert_eq!(
        create_user_details_given(&PROGRAM_ID, &accounts, details(), 168, true, derived),
        Err(ProcessError::Custom(SolariumError::Overflow))
    );
    assert_eq!(
        create_user_details_given(&PROGRAM_ID, &accounts, details(), 3072, true, None),
        Err(ProcessError::InvalidSeeds)
    );
}

#[test]
fn user_details_are_changed_given_the_answers() {
    let mut data = encode(&details()).unwrap();
    data.resize(400, 0);
    let accounts = vec![
        account(11, [9u8; 32], false, vec![]),
        account(1, [0u8; 32], true, vec![]),
        account(51, PROGRAM_ID, false, data),
    ];
    let derived = Some(([51u8; 32], 3));
    let change = |change: UserDetailsChange, accepted: bool, derived| {
        change_user_details_given(&PROGRAM_ID, &accounts, change, accepted, derived)
            .map(|updates| decode::<UserDetails>(&updates[0].data).unwrap())
    };
    let updated = change(
        UserDetailsChange::Update {
            alias: "Alicia".to_string(),
            address_book: "encrypted data".to_string(),
        },
        true,
        derived,
    )
    .unwrap();
    assert_eq!(updated.alias, "Alicia");
    assert_eq!(updated.address_book, "encrypted data");
    assert_eq!(updated.encrypted_user_private_key_data, vec![key_data()]);
    assert_eq!(updated.user_public_key, [5u8; 32]);
    assert_eq!(
        change(UserDetailsChange::RemoveKey { kid: *b"key1    " }, true, derived)
            .unwrap()
            .encrypted_user_private_key_data,
        vec![]
    );
    assert_eq!(
        change(UserDetailsChange::RemoveKey { kid: *b"key9    " }, true, derived),
        Err(ProcessError::Custom(SolariumError::KeyNotFound))
    );
    assert_eq!(
        change(UserDetailsChange::AddKey { key_data: key_data() }, true, derived)
            .unwrap()
            .encrypted_user_private_key_data,
        vec![key_data(), key_data()]
    );
    assert_eq!(
        change(UserDetailsChange::AddKey { key_data: key_data() }, false, derived),
        Err(ProcessError::Custom(SolariumError::IncorrectAuthority))
    );
    assert_eq!(
        change(UserDetailsChange::AddKey { key_data: key_data() }, true, Some(([52u8; 32], 3))),
        Err(ProcessError::Custom(SolariumError::AddressDerivationMismatch))
    );
    assert_eq!(
        change_details(
            UserDetails::default(),
            UserDetailsChange::Update { alias: "a".to_string(), address_book: "".to_string() }
        ),
        Err(ProcessError::UninitializedAccount)
    );
}

#[test]
fn notifications_are_decided_given_the_answers() {
    let accounts = vec![
        account(3, [0u8; 32], true, vec![]),
        account(11, [9u8; 32], false, vec![]),
        account(1, [0u8; 32], true, vec![]),
        account(61, [0u8; 32], false, vec![]),
        rent(),
        account(0, [0u8; 32], false, vec![]),
    ];
    let updates =
        create_notifications_given(&PROGRAM_ID, &accounts, 2, true, Some(([61u8; 32], 1)))
            .unwrap();
    assert_eq!(updates[0].allocation.as_ref().unwrap().space, 71);
    assert_eq!(updates[0].data, vec![0, 0, 0, 0, 2]);
    assert_eq!(
        create_notifications_given(&PROGRAM_ID, &accounts, 2, false, Some(([61u8; 32], 1))),
        Err(ProcessError::Custom(SolariumError::IncorrectAuthority))
    );

    let mut data = updates[0].data.clone();
    data.resize(71, 0);
    let accounts = vec![
        account(61, PROGRAM_ID, false, data),
        account(12, [9u8; 32], false, vec![]),
        account(2, [0u8; 32], true, vec![]),
    ];
    let kind = NotificationType::DirectChannel;
    let updates = add_notification_given(&PROGRAM_ID, &accounts, kind, &[12u8; 32], true).unwrap();
    let notifications = decode::<Notifications>(&updates[0].data).unwrap();
    assert_eq!(notifications.size, 2);
    assert_eq!(notifications.notifications.len(), 1);
    assert_eq!(notifications.notifications[0].pubkey, [12u8; 32]);
    assert_eq!(
        add_notification_given(&PROGRAM_ID, &accounts, kind, &[12u8; 32], false),
        Err(ProcessError::Custom(SolariumError::IncorrectAuthority))
    );
    let mut foreign = accounts.clone();
    foreign[0].owner = [8u8; 32];
    assert_eq!(
        add_notification_given(&PROGRAM_ID, &foreign, kind, &[12u8; 32], true),
        Err(ProcessError::IncorrectProgramId)
    );
}

#[test]
fn cek_list_is_changed_given_the_answer() {
    let mut list = CEKAccountDataV1::new([11u8; 32], [21u8; 32]);
    let cek = |kid: &str| CEKDataV1 {
        header: "".to_string(),
        kid: kid.to_string(),
        encrypted_key: "".to_string(),
    };
    list.add(cek("key1")).unwrap();
    let mut data = encode(&list).unwrap();
    data.resize(300, 0);
    let accounts = vec![
        account(11, [9u8; 32], false, vec![]),
        account(1, [0u8; 32], true, vec![]),
        account(41, PROGRAM_ID, false, data),
    ];
    let updates = change_cek_list_given(
        &PROGRAM_ID,
        &accounts,
        CekListChange::Add { cek: cek("key2") },
        true,
    )
    .unwrap();
    assert_eq!(
        decode::<CEKAccountDataV1>(&updates[0].data).unwrap().ceks,
        vec![cek("key1"), cek("key2")]
    );
    assert_eq!(
        change_cek_list_given(
            &PROGRAM_ID,
            &accounts,
            CekListChange::Remove { kid: "key9".to_string() },
            true
        ),
        Err(ProcessError::Custom(SolariumError::CEKNotFound))
    );
    assert_eq!(
        change_cek_list_given(
            &PROGRAM_ID,
            &accounts,
            CekListChange::Remove { kid: "key1".to_string() },
            false
        ),
        Err(ProcessError::Custom(SolariumError::IncorrectAuthority))
    );
}

#[test]
fn channel_name_is_joined_with_a_stroke() {
    assert_eq!(join_channel_name("alice".to_string(), "bob"), "alice/bob");
    assert_eq!(join_channel_name("".to_string(), ""), "/");
}

#[test]
fn instruction_is_built_from_its_parts() {
    let accounts =
        initialize_channel_account_list(&[1; 32], &[2; 32], &[3; 32], &[4; 32], &[5; 32]);
    assert_eq!(accounts.len(), 7);
    assert_eq!(accounts[4], AccountMeta::new([5; 32], false));
    let built = build(
        &PROGRAM_ID,
        &SolariumInstruction::CreateNotifications { size: 3 },
        accounts.clone(),
    )
    .unwrap();
    assert_eq!(built.program_id, PROGRAM_ID);
    assert_eq!(built.accounts, accounts);
    assert_eq!(built.data, vec![8, 3]);
}
