use borsh::BorshSerialize;
use sol_did::state::SolData;
use solana_program::pubkey::Pubkey;
use solarium::address::{
    get_cek_account_address_with_seed, get_channel_address_with_seed,
    get_notifications_account_address_with_seed, get_userdetails_account_address_with_seed,
    Address, RENT_SYSVAR_ID, SYSTEM_PROGRAM_ID,
};
use solarium::error::{ProcessError, SolariumError};
use solarium::instruction;
use solarium::instruction::Instruction;
use solarium::journal::commit;
use solarium::processor;
use solarium::processor::{process_instruction, Account, AccountUpdate};
use solarium::records::{decode, encode};
use solarium::state::{
    CEKAccountDataV1, CEKAccountDataV2, CEKDataV1, ChannelData, EncryptedKeyData, Kid, Message,
    Notification, NotificationType, Notifications, UserDetails,
};
use std::collections::HashMap;

const PROGRAM_ID: Address = [7u8; 32];

/// A ledger in memory: what each address holds, who owns it, and the time.
pub struct SolariumContext {
    pub ledger: HashMap<Address, (Address, Vec<u8>)>,
    pub clock: i64,
    pub payer: Address,
    pub channel: Option<Address>,
    pub alice: Address,
    pub bob: Address,
    pub alice_did: Address,
    pub bob_did: Address,
    pub alice_cek: Option<Address>,
    pub alice_user_details: Option<Address>,
    pub alice_notifications: Option<Address>,
}

impl SolariumContext {
    fn make_did(
        ledger: &mut HashMap<Address, (Address, Vec<u8>)>,
        did: Address,
        authority: Address,
    ) {
        let mut data = SolData::new_sparse(Pubkey::new_from_array(authority))
            .try_to_vec()
            .unwrap();
        data.resize(SolData::DEFAULT_SIZE, 0);
        ledger.insert(did, (sol_did::id().to_bytes(), data));
    }

    pub fn new() -> Self {
        let mut ledger = HashMap::new();
        let (alice, bob) = ([1u8; 32], [2u8; 32]);
        let (alice_did, bob_did) = ([11u8; 32], [12u8; 32]);
        SolariumContext::make_did(&mut ledger, alice_did, alice);
        SolariumContext::make_did(&mut ledger, bob_did, bob);
        ledger.insert(RENT_SYSVAR_ID, ([0u8; 32], vec![0u8; 17]));
        Self {
            ledger,
            clock: 1_600_000_000,
            payer: [3u8; 32],
            channel: None,
            alice,
            bob,
            alice_did,
            bob_did,
            alice_cek: None,
            alice_user_details: None,
            alice_notifications: None,
        }
    }

    /// Hands the instruction to the program as the ledger would, and makes
    /// the updates where the program succeeds.
    pub fn process(
        &mut self,
        instruction: &Instruction,
    ) -> Result<Vec<AccountUpdate>, ProcessError> {
        let mut accounts: Vec<Account> = instruction
            .accounts
            .iter()
            .map(|meta| {
                let (owner, data) = self
                    .ledger
                    .get(&meta.pubkey)
                    .cloned()
                    .unwrap_or((SYSTEM_PROGRAM_ID, vec![]));
                Account { key: meta.pubkey, owner, is_signer: meta.is_signer, data }
            })
            .collect();
        self.clock += 1;
        let updates = process_instruction(
            &instruction.program_id,
            &accounts,
            &instruction.data,
            Some(self.clock),
        )?;
        assert!(commit(&mut accounts, &instruction.program_id, &updates));
        for account in accounts {
            self.ledger.insert(account.key, (account.owner, account.data));
        }
        Ok(updates)
    }

    pub fn create_channel(&mut self) {
        let channel = [21u8; 32];
        let alice_cek = SolariumContext::make_dummy_keydata("key1");
        self.ledger
            .insert(channel, (PROGRAM_ID, vec![0u8; ChannelData::size_bytes() as usize]));
        let initialize_channel = instruction::initialize_channel(
            &PROGRAM_ID,
            &self.payer,
            &channel,
            "test channel".to_string(),
            &self.alice_did,
            &self.alice,
            alice_cek,
        )
        .unwrap();
        self.process(&initialize_channel).unwrap();
        let (alice_cek_account, _) =
            get_cek_account_address_with_seed(&PROGRAM_ID, &self.alice_did, &channel).unwrap();
        self.alice_cek = Some(alice_cek_account);
        self.channel = Some(channel);
    }

    pub fn create_direct_channel(&mut self) {
        let alice_cek = SolariumContext::make_dummy_keydata("key1");
        let bob_cek = SolariumContext::make_dummy_keydata("key1");
        let (channel, _) =
            get_channel_address_with_seed(&PROGRAM_ID, &self.alice_did, &self.bob_did).unwrap();
        let initialize_direct_channel = instruction::initialize_direct_channel(
            &PROGRAM_ID,
            &self.payer,
            &channel,
            &self.alice_did,
            &self.alice,
            &self.bob_did,
            alice_cek,
            bob_cek,
        )
        .unwrap();
        self.process(&initialize_direct_channel).unwrap();
        let (alice_cek_account, _) =
            get_cek_account_address_with_seed(&PROGRAM_ID, &self.alice_did, &channel).unwrap();
        self.alice_cek = Some(alice_cek_account);
        self.channel = Some(channel);
    }

    pub fn add_to_channel(&mut self) -> Result<Vec<AccountUpdate>, ProcessError> {
        let bob_cek = SolariumContext::make_dummy_keydata("key1");
        let add_to_channel = instruction::add_to_channel(
            &PROGRAM_ID,
            &self.payer,
            &self.channel.unwrap(),
            &self.bob_did,
            &self.alice_did,
            &self.alice,
            bob_cek,
        )
        .unwrap();
        self.process(&add_to_channel)
    }

    pub fn post(&mut self, message: &str) -> Result<Vec<AccountUpdate>, ProcessError> {
        let message_obj = Message::new(self.alice_did, message.to_string());
        let post =
            instruction::post(&PROGRAM_ID, &self.channel.unwrap(), &self.alice, &message_obj)
                .unwrap();
        self.process(&post)
    }

    pub fn post_as_bob(&mut self, message: &str) -> Result<Vec<AccountUpdate>, ProcessError> {
        let message_obj = Message::new(self.bob_did, message.to_string());
        let post = instruction::post(&PROGRAM_ID, &self.channel.unwrap(), &self.bob, &message_obj)
            .unwrap();
        self.process(&post)
    }

    pub fn kid_to_bytes(kid: &str) -> Kid {
        let padded = format!("{:width$}", kid, width = 8);
        let mut bytes = [0u8; 8];
        bytes.copy_from_slice(&padded.as_bytes()[0..8]);
        bytes
    }

    pub fn make_dummy_keydata(kid: &str) -> EncryptedKeyData {
        EncryptedKeyData {
            header: [0; 8],
            kid: SolariumContext::kid_to_bytes(kid),
            encrypted_key: [0; 104],
        }
    }

    pub fn make_dummy_cekdata(kid: &str) -> CEKDataV1 {
        CEKDataV1 {
            header: "".to_string(),
            kid: kid.to_string(),
            encrypted_key: "".to_string(),
        }
    }

    pub fn get_channel(&self) -> ChannelData {
        decode::<ChannelData>(&self.ledger[&self.channel.unwrap()].1).unwrap()
    }

    pub fn get_cek_account(&self, address: Address) -> CEKAccountDataV2 {
        decode::<CEKAccountDataV2>(&self.ledger[&address].1).unwrap()
    }

    pub fn add_key(
        &mut self,
        key_data: EncryptedKeyData,
    ) -> Result<Vec<AccountUpdate>, ProcessError> {
        let add_key_instruction =
            instruction::add_encrypted_user_key(&PROGRAM_ID, &self.alice_did, &self.alice, key_data)
                .unwrap();
        self.process(&add_key_instruction)
    }

    pub fn remove_key(&mut self, kid: &str) -> Result<Vec<AccountUpdate>, ProcessError> {
        let remove_key_instruction = instruction::remove_encrypted_user_key(
            &PROGRAM_ID,
            &self.alice_did,
            &self.alice,
            SolariumContext::kid_to_bytes(kid),
        )
        .unwrap();
        self.process(&remove_key_instruction)
    }

    pub fn create_user_details(&mut self) -> Result<Vec<AccountUpdate>, ProcessError> {
        let (alice_user_details, _) =
            get_userdetails_account_address_with_seed(&PROGRAM_ID, &self.alice_did).unwrap();
        let create_user_details_account = instruction::create_user_details(
            &PROGRAM_ID,
            &self.payer,
            &self.alice_did,
            &self.alice,
            "Alice".to_string(),
            UserDetails::DEFAULT_SIZE_BYTES,
            [0u8; 32],
            vec![SolariumContext::make_dummy_keydata("key1")],
        )
        .unwrap();
        self.alice_user_details = Some(alice_user_details);
        self.process(&create_user_details_account)
    }

    pub fn update_user_details(&mut self, new_alias: &str, new_address_book: &str) {
        let update_user_details_account = instruction::update_user_details(
            &PROGRAM_ID,
            &self.alice_did,
            &self.alice,
            new_alias.to_string(),
            new_address_book.to_string(),
        )
        .unwrap();
        self.process(&update_user_details_account).unwrap();
    }

    pub fn get_user_details(&self) -> UserDetails {
        decode::<UserDetails>(&self.ledger[&self.alice_user_details.unwrap()].1).unwrap()
    }

    pub fn create_notifications(&mut self) -> Result<Vec<AccountUpdate>, ProcessError> {
        let (alice_notifications, _) =
            get_notifications_account_address_with_seed(&PROGRAM_ID, &self.alice_did).unwrap();
        let create_notifications_account = instruction::create_notifications(
            &PROGRAM_ID,
            &self.payer,
            &self.alice_did,
            &self.alice,
            Notifications::DEFAULT_SIZE,
        )
        .unwrap();
        self.alice_notifications = Some(alice_notifications);
        self.process(&create_notifications_account)
    }

    pub fn get_notifications(&self) -> Notifications {
        decode::<Notifications>(&self.ledger[&self.alice_notifications.unwrap()].1).unwrap()
    }

    pub fn add_notification(
        &mut self,
        notification_type: NotificationType,
        pubkey: &Address,
    ) -> Result<Vec<AccountUpdate>, ProcessError> {
        let add_notification = instruction::add_notification(
            &PROGRAM_ID,
            notification_type,
            pubkey,
            &self.alice_did,
            &self.bob_did,
            &self.bob,
        )
        .unwrap();
        self.process(&add_notification)
    }
}

#[test]
fn create_channel() {
    let mut context = SolariumContext::new();

    context.create_channel();

    let channel = context.get_channel();
    assert_eq!(channel.name, "test channel");
    assert_eq!(channel.messages, vec![]);
    let cek_account = context.get_cek_account(context.alice_cek.unwrap());
    assert_eq!(cek_account.owner_did, context.alice_did);
    assert_eq!(cek_account.channel, context.channel.unwrap());
    assert_eq!(cek_account.encrypted_cek, SolariumContext::make_dummy_keydata("key1"));
    assert_eq!(context.ledger[&context.alice_cek.unwrap()].0, PROGRAM_ID);
    assert_eq!(context.ledger[&context.alice_cek.unwrap()].1.len(), 184);
}

#[test]
fn add_cek() {
    let kid = "key2";
    let (mut context, alice_cek) = with_cek_list([11u8; 32]);

    change_cek_list(&mut context, alice_cek, Ok(SolariumContext::make_dummy_cekdata(kid)))
        .unwrap();

    let cek_account = decode::<CEKAccountDataV1>(&context.ledger[&alice_cek].1).unwrap();
    let found = cek_account.ceks.iter().any(|cek| cek.kid == kid);

    assert!(found);
}

#[test]
fn remove_cek() {
    let kid = "key1";
    let (mut context, alice_cek) = with_cek_list([11u8; 32]);

    change_cek_list(&mut context, alice_cek, Err(kid)).unwrap();

    let cek_account = decode::<CEKAccountDataV1>(&context.ledger[&alice_cek].1).unwrap();
    let found = cek_account.ceks.iter().any(|cek| cek.kid == kid);

    assert!(!found);
}

#[test]
fn add_to_channel() {
    let mut context = SolariumContext::new();

    context.create_channel();

    context.add_to_channel().unwrap();

    let (bob_cek, _) = get_cek_account_address_with_seed(
        &PROGRAM_ID,
        &context.bob_did,
        &context.channel.unwrap(),
    )
    .unwrap();
    let cek_account = context.get_cek_account(bob_cek);
    assert_eq!(cek_account.owner_did, context.bob_did);
    assert_eq!(cek_account.channel, context.channel.unwrap());
}

#[test]
fn post() {
    let message = "hello world";

    let mut context = SolariumContext::new();

    context.create_channel();
    context.post(message).unwrap();

    let channel = context.get_channel();

    assert_eq!(channel.messages.len(), 1);
    assert_eq!(channel.messages[0].content, message);
    assert_eq!(channel.messages[0].sender, context.alice_did);
    assert_eq!(channel.messages[0].timestamp, context.clock);
}

#[test]
fn post_multiple() {
    let message = "hello world";
    let mut context = SolariumContext::new();

    context.create_channel();

    // send DEFAULT_SIZE * messages
    for n in 0..(ChannelData::DEFAULT_SIZE * 2) {
        let m = format!("{}{}", message, n);
        println!("Sending {}", m);
        context.post(m.as_str()).unwrap();
    }

    let channel = context.get_channel();

    // check the most recent DEFAULT_SIZE messages were retained
    assert_eq!(channel.messages.len(), ChannelData::DEFAULT_SIZE as usize);
    assert_eq!(
        channel.messages[0].content,
        format!("{}{}", message, ChannelData::DEFAULT_SIZE)
    );
}

#[test]
fn create_direct_channel() {
    let mut context = SolariumContext::new();

    context.create_direct_channel();

    let alices_message = "hi from alice";
    let bobs_message = "hi from bob";

    context.post(alices_message).unwrap();
    context.post_as_bob(bobs_message).unwrap();

    let channel = context.get_channel();

    // check the most recent DEFAULT_SIZE messages were retained
    assert_eq!(channel.messages.len(), 2);
    assert_eq!(channel.messages[0].content, alices_message);
    assert_eq!(channel.messages[1].content, bobs_message);
    assert_eq!(
        channel.name,
        format!(
            "{}/{}",
            Pubkey::new_from_array(context.alice_did),
            Pubkey::new_from_array(context.bob_did)
        )
    );
    assert_eq!(context.ledger[&context.channel.unwrap()].1.len(), 4160);
}

#[test]
fn create_user_details() {
    let mut context = SolariumContext::new();

    context.create_user_details().unwrap();

    let user_details = context.get_user_details();

    assert_eq!(user_details.alias, "Alice");
    assert_eq!(user_details.address_book, "");
    assert_eq!(
        user_details.encrypted_user_private_key_data,
        vec![SolariumContext::make_dummy_keydata("key1")]
    );
    assert_eq!(context.ledger[&context.alice_user_details.unwrap()].1.len(), 3072);
}

#[test]
fn update_user_details() {
    let new_alias = "Alicia";
    let new_address_book = "encrypted data";

    let mut context = SolariumContext::new();

    context.create_user_details().unwrap();

    context.update_user_details(new_alias, new_address_book);

    let user_details = context.get_user_details();

    assert_eq!(user_details.alias, new_alias);
    assert_eq!(user_details.address_book, new_address_book);
}

#[test]
fn create_notifications() {
    let mut context = SolariumContext::new();

    context.create_notifications().unwrap();

    let notifications = context.get_notifications();

    assert_eq!(notifications.notifications, vec![]);
    assert_eq!(notifications.size, 8);
    assert_eq!(context.ledger[&context.alice_notifications.unwrap()].1.len(), 269);
}

#[test]
fn add_notification() {
    let mut context = SolariumContext::new();

    context.create_notifications().unwrap();

    let group_channel_pubkey = [42u8; 32];

    context
        .add_notification(NotificationType::GroupChannel, &group_channel_pubkey)
        .unwrap();

    let notifications = context.get_notifications();

    assert_eq!(
        notifications.notifications[0],
        Notification {
            notification_type: NotificationType::GroupChannel,
            pubkey: group_channel_pubkey
        }
    );
}

#[test]
fn notifications_evict_the_oldest_at_capacity() {
    let mut context = SolariumContext::new();
    context.create_notifications().unwrap();

    for n in 0..11u8 {
        context
            .add_notification(NotificationType::DirectChannel, &[n; 32])
            .unwrap();
    }

    let notifications = context.get_notifications();
    assert_eq!(notifications.notifications.len(), 8);
    for n in 0..8usize {
        assert_eq!(notifications.notifications[n].pubkey, [n as u8 + 3; 32]);
    }
}

#[test]
fn post_sixteen_messages_keeps_the_last_eight_in_order() {
    let mut context = SolariumContext::new();
    context.create_channel();

    for n in 0..16 {
        context.post(&format!("msg{}", n)).unwrap();
    }

    let channel = context.get_channel();
    let contents: Vec<String> = channel.messages.iter().map(|m| m.content.clone()).collect();
    assert_eq!(
        contents,
        vec!["msg8", "msg9", "msg10", "msg11", "msg12", "msg13", "msg14", "msg15"]
    );
}

#[test]
fn general_channel_scenario() {
    let mut context = SolariumContext::new();
    let channel = [22u8; 32];
    context
        .ledger
        .insert(channel, (PROGRAM_ID, vec![0u8; ChannelData::size_bytes() as usize]));
    let create = instruction::initialize_channel(
        &PROGRAM_ID,
        &context.payer,
        &channel,
        "general".to_string(),
        &context.alice_did,
        &context.alice,
        SolariumContext::make_dummy_keydata("key1"),
    )
    .unwrap();
    context.process(&create).unwrap();
    context.channel = Some(channel);

    context.add_to_channel().unwrap();
    context.post("hello").unwrap();
    context.post_as_bob("hi").unwrap();

    let log = context.get_channel();
    assert_eq!(log.name, "general");
    assert_eq!(log.messages.len(), 2);
    assert_eq!(log.messages[0].sender, context.alice_did);
    assert_eq!(log.messages[0].content, "hello");
    assert_eq!(log.messages[1].sender, context.bob_did);
    assert_eq!(log.messages[1].content, "hi");
    assert!(log.messages[1].timestamp >= log.messages[0].timestamp);
    assert_eq!(log.messages[0].timestamp, 1_600_000_003);
    assert_eq!(log.messages[1].timestamp, 1_600_000_004);
}

#[test]
fn post_without_membership_fails() {
    let mut context = SolariumContext::new();
    context.create_channel();

    // bob is a valid authority of his DID, but no member of the channel
    assert_eq!(
        context.post_as_bob("let me in").unwrap_err(),
        ProcessError::Custom(SolariumError::IncorrectAuthority)
    );
    assert_eq!(context.get_channel().messages, vec![]);
}

#[test]
fn post_with_the_cek_account_of_another_channel_fails() {
    let mut context = SolariumContext::new();
    context.create_channel();
    let first_channel = context.channel.unwrap();
    let alice_cek_of_first = context.alice_cek.unwrap();

    let second_channel = [23u8; 32];
    context
        .ledger
        .insert(second_channel, (PROGRAM_ID, vec![0u8; ChannelData::size_bytes() as usize]));
    let create = instruction::initialize_channel(
        &PROGRAM_ID,
        &context.payer,
        &second_channel,
        "second".to_string(),
        &context.bob_did,
        &context.bob,
        SolariumContext::make_dummy_keydata("key1"),
    )
    .unwrap();
    context.process(&create).unwrap();

    // alice posts to the second channel with her cek account of the first
    let message = Message::new(context.alice_did, "hello".to_string());
    let mut post =
        instruction::post(&PROGRAM_ID, &second_channel, &context.alice, &message).unwrap();
    post.accounts[3].pubkey = alice_cek_of_first;
    assert_eq!(
        context.process(&post).unwrap_err(),
        ProcessError::Custom(SolariumError::CEKIncorrectChannel)
    );

    context.channel = Some(second_channel);
    assert_eq!(context.get_channel().messages, vec![]);
    context.channel = Some(first_channel);
    assert_eq!(context.get_channel().messages, vec![]);
}

#[test]
fn post_by_a_key_that_is_no_authority_fails() {
    let mut context = SolariumContext::new();
    context.create_channel();

    let message = Message::new(context.alice_did, "hello".to_string());
    let post = instruction::post(&PROGRAM_ID, &context.channel.unwrap(), &context.bob, &message)
        .unwrap();
    assert_eq!(
        context.process(&post).unwrap_err(),
        ProcessError::Custom(SolariumError::IncorrectAuthority)
    );
}

#[test]
fn post_without_signature_fails() {
    let mut context = SolariumContext::new();
    context.create_channel();

    let message = Message::new(context.alice_did, "hello".to_string());
    let mut post =
        instruction::post(&PROGRAM_ID, &context.channel.unwrap(), &context.alice, &message)
            .unwrap();
    post.accounts[2].is_signer = false;
    assert_eq!(
        context.process(&post).unwrap_err(),
        ProcessError::MissingRequiredSignature
    );
}

#[test]
fn post_to_a_channel_that_was_not_created_fails() {
    let mut context = SolariumContext::new();
    let channel = [24u8; 32];
    context
        .ledger
        .insert(channel, (PROGRAM_ID, vec![0u8; ChannelData::size_bytes() as usize]));
    context.channel = Some(channel);
    assert_eq!(
        context.post("hello").unwrap_err(),
        ProcessError::UninitializedAccount
    );
}

#[test]
fn post_without_a_clock_fails() {
    let mut context = SolariumContext::new();
    context.create_channel();
    let message = Message::new(context.alice_did, "hello".to_string());
    let post = instruction::post(&PROGRAM_ID, &context.channel.unwrap(), &context.alice, &message)
        .unwrap();
    let accounts: Vec<Account> = post
        .accounts
        .iter()
        .map(|meta| {
            let (owner, data) = context.ledger[&meta.pubkey].clone();
            Account { key: meta.pubkey, owner, is_signer: meta.is_signer, data }
        })
        .collect();
    assert_eq!(
        process_instruction(&PROGRAM_ID, &accounts, &post.data, None).unwrap_err(),
        ProcessError::UnsupportedSysvar
    );
}

#[test]
fn post_of_a_message_over_the_limit_fails() {
    let mut context = SolariumContext::new();
    context.create_channel();
    let at_limit = "x".repeat(512);
    context.post(&at_limit).unwrap();
    let over = "x".repeat(513);
    assert_eq!(
        context.post(&over).unwrap_err(),
        ProcessError::Custom(SolariumError::Overflow)
    );
    assert_eq!(context.get_channel().messages.len(), 1);
}

#[test]
fn post_that_outgrows_the_channel_account_fails() {
    let mut context = SolariumContext::new();
    context.create_channel();
    let long = "x".repeat(512);
    // each message takes 8 + 32 + 4 + 512 bytes; seven fit beside the name
    for _ in 0..7 {
        context.post(&long).unwrap();
    }
    assert_eq!(
        context.post(&long).unwrap_err(),
        ProcessError::Custom(SolariumError::Overflow)
    );
    assert_eq!(context.get_channel().messages.len(), 7);
}

#[test]
fn channel_is_created_once() {
    let mut context = SolariumContext::new();
    context.create_channel();
    context.post("kept").unwrap();
    let before = context.ledger[&context.channel.unwrap()].clone();

    let again = instruction::initialize_channel(
        &PROGRAM_ID,
        &context.payer,
        &context.channel.unwrap(),
        "other name".to_string(),
        &context.bob_did,
        &context.bob,
        SolariumContext::make_dummy_keydata("key1"),
    )
    .unwrap();
    assert_eq!(
        context.process(&again).unwrap_err(),
        ProcessError::Custom(SolariumError::AlreadyInUse)
    );
    assert_eq!(context.ledger[&context.channel.unwrap()], before);
}

#[test]
fn direct_channel_is_created_once() {
    let mut context = SolariumContext::new();
    context.create_direct_channel();
    let before = context.ledger[&context.channel.unwrap()].clone();

    // bob asks for the same channel, naming the DIDs the other way round
    let again = instruction::initialize_direct_channel(
        &PROGRAM_ID,
        &context.payer,
        &context.channel.unwrap(),
        &context.bob_did,
        &context.bob,
        &context.alice_did,
        SolariumContext::make_dummy_keydata("key1"),
        SolariumContext::make_dummy_keydata("key1"),
    )
    .unwrap();
    assert_eq!(
        context.process(&again).unwrap_err(),
        ProcessError::Custom(SolariumError::AlreadyInUse)
    );
    assert_eq!(context.ledger[&context.channel.unwrap()], before);
}

#[test]
fn direct_channel_at_another_address_fails() {
    let mut context = SolariumContext::new();
    let wrong = [25u8; 32];
    let create = instruction::initialize_direct_channel(
        &PROGRAM_ID,
        &context.payer,
        &wrong,
        &context.alice_did,
        &context.alice,
        &context.bob_did,
        SolariumContext::make_dummy_keydata("key1"),
        SolariumContext::make_dummy_keydata("key1"),
    )
    .unwrap();
    assert_eq!(
        context.process(&create).unwrap_err(),
        ProcessError::Custom(SolariumError::AddressDerivationMismatch)
    );
}

#[test]
fn member_is_added_once() {
    let mut context = SolariumContext::new();
    context.create_channel();
    context.add_to_channel().unwrap();
    assert_eq!(
        context.add_to_channel().unwrap_err(),
        ProcessError::AccountAlreadyInitialized
    );
}

#[test]
fn add_to_channel_by_a_member_of_another_channel_fails() {
    let mut context = SolariumContext::new();
    context.create_channel();
    let alice_cek_of_first = context.alice_cek.unwrap();
    let second_channel = [26u8; 32];
    context
        .ledger
        .insert(second_channel, (PROGRAM_ID, vec![0u8; ChannelData::size_bytes() as usize]));
    let mut add = instruction::add_to_channel(
        &PROGRAM_ID,
        &context.payer,
        &second_channel,
        &context.bob_did,
        &context.alice_did,
        &context.alice,
        SolariumContext::make_dummy_keydata("key1"),
    )
    .unwrap();
    add.accounts[4].pubkey = alice_cek_of_first;
    assert_eq!(
        context.process(&add).unwrap_err(),
        ProcessError::Custom(SolariumError::CEKIncorrectChannel)
    );
}

#[test]
fn user_details_are_created_once() {
    let mut context = SolariumContext::new();
    context.create_user_details().unwrap();
    let before = context.ledger[&context.alice_user_details.unwrap()].clone();
    assert_eq!(
        context.create_user_details().unwrap_err(),
        ProcessError::Custom(SolariumError::AlreadyInUse)
    );
    assert_eq!(context.ledger[&context.alice_user_details.unwrap()], before);
}

#[test]
fn update_of_user_details_that_were_not_created_fails() {
    let mut context = SolariumContext::new();
    let (address, _) =
        get_userdetails_account_address_with_seed(&PROGRAM_ID, &context.alice_did).unwrap();
    context.ledger.insert(address, (PROGRAM_ID, vec![0u8; 64]));
    let update = instruction::update_user_details(
        &PROGRAM_ID,
        &context.alice_did,
        &context.alice,
        "Alicia".to_string(),
        "".to_string(),
    )
    .unwrap();
    assert_eq!(
        context.process(&update).unwrap_err(),
        ProcessError::UninitializedAccount
    );
}

#[test]
fn notifications_are_created_once() {
    let mut context = SolariumContext::new();
    context.create_notifications().unwrap();
    context
        .add_notification(NotificationType::GroupChannel, &[9u8; 32])
        .unwrap();
    let before = context.ledger[&context.alice_notifications.unwrap()].clone();
    assert_eq!(
        context.create_notifications().unwrap_err(),
        ProcessError::Custom(SolariumError::AlreadyInUse)
    );
    assert_eq!(context.ledger[&context.alice_notifications.unwrap()], before);
}

#[test]
fn notification_to_an_account_that_was_not_created_fails() {
    let mut context = SolariumContext::new();
    assert_eq!(
        context
            .add_notification(NotificationType::GroupChannel, &[9u8; 32])
            .unwrap_err(),
        ProcessError::UninitializedAccount
    );
}

#[test]
fn user_keys_are_added_and_removed_by_key_id() {
    let mut context = SolariumContext::new();
    context.create_user_details().unwrap();

    context.add_key(SolariumContext::make_dummy_keydata("key2")).unwrap();
    context.remove_key("key1").unwrap();
    assert_eq!(
        context.get_user_details().encrypted_user_private_key_data,
        vec![SolariumContext::make_dummy_keydata("key2")]
    );

    let before = context.ledger[&context.alice_user_details.unwrap()].clone();
    assert_eq!(
        context.remove_key("key9").unwrap_err(),
        ProcessError::Custom(SolariumError::KeyNotFound)
    );
    assert_eq!(context.ledger[&context.alice_user_details.unwrap()], before);
}

#[test]
fn user_keys_that_outgrow_the_account_fail() {
    let mut context = SolariumContext::new();
    context.create_user_details().unwrap();
    // 3072 bytes hold the alias, the address book, the key and 25 keys of 120 bytes
    let mut added = 1;
    loop {
        match context.add_key(SolariumContext::make_dummy_keydata("more")) {
            Ok(_) => added += 1,
            Err(e) => {
                assert_eq!(e, ProcessError::Custom(SolariumError::Overflow));
                break;
            }
        }
    }
    assert_eq!(added, 25);
    assert_eq!(context.get_user_details().encrypted_user_private_key_data.len(), 25);
}

#[test]
fn too_few_accounts_fail() {
    let mut context = SolariumContext::new();
    context.create_channel();
    let message = Message::new(context.alice_did, "hello".to_string());
    let mut post =
        instruction::post(&PROGRAM_ID, &context.channel.unwrap(), &context.alice, &message)
            .unwrap();
    post.accounts.pop();
    assert_eq!(
        context.process(&post).unwrap_err(),
        ProcessError::NotEnoughAccountKeys
    );
}

#[test]
fn creation_without_the_rent_rules_fails() {
    let mut context = SolariumContext::new();
    let mut create = instruction::create_notifications(
        &PROGRAM_ID,
        &context.payer,
        &context.alice_did,
        &context.alice,
        8,
    )
    .unwrap();
    create.accounts[4].pubkey = [99u8; 32];
    assert_eq!(
        context.process(&create).unwrap_err(),
        ProcessError::InvalidArgument
    );
}

#[test]
fn channel_of_another_program_fails() {
    let mut context = SolariumContext::new();
    let channel = [27u8; 32];
    context
        .ledger
        .insert(channel, ([8u8; 32], vec![0u8; ChannelData::size_bytes() as usize]));
    let create = instruction::initialize_channel(
        &PROGRAM_ID,
        &context.payer,
        &channel,
        "test channel".to_string(),
        &context.alice_did,
        &context.alice,
        SolariumContext::make_dummy_keydata("key1"),
    )
    .unwrap();
    assert_eq!(
        context.process(&create).unwrap_err(),
        ProcessError::IncorrectProgramId
    );
}

#[test]
fn malformed_channel_data_fails() {
    let mut context = SolariumContext::new();
    let channel = [28u8; 32];
    // the name claims nine bytes, and two follow
    context.ledger.insert(channel, (PROGRAM_ID, vec![9, 0, 0, 0, 1, 2]));
    context.channel = Some(channel);
    assert_eq!(context.post("hello").unwrap_err(), ProcessError::BorshIoError);
}

/// The accounts of a change to a cek account that holds a list of CEKs.
fn cek_list_accounts(context: &SolariumContext, cek_account: Address) -> Vec<Account> {
    [(context.alice_did, false), (context.alice, true), (cek_account, false)]
        .iter()
        .map(|(key, is_signer)| {
            let (owner, data) = context.ledger[key].clone();
            Account { key: *key, owner, is_signer: *is_signer, data }
        })
        .collect()
}

fn with_cek_list(owner_did: Address) -> (SolariumContext, Address) {
    let mut context = SolariumContext::new();
    context.ledger.insert(context.alice, (SYSTEM_PROGRAM_ID, vec![]));
    let cek_account = [31u8; 32];
    let mut list = CEKAccountDataV1::new(owner_did, [21u8; 32]);
    list.add(SolariumContext::make_dummy_cekdata("key1")).unwrap();
    let mut data = encode(&list).unwrap();
    data.resize(512, 0);
    context.ledger.insert(cek_account, (PROGRAM_ID, data));
    (context, cek_account)
}

fn change_cek_list(
    context: &mut SolariumContext,
    cek_account: Address,
    change: Result<CEKDataV1, &str>,
) -> Result<(), ProcessError> {
    let mut accounts = cek_list_accounts(context, cek_account);
    let updates = match change {
        Ok(cek) => processor::add_cek(&PROGRAM_ID, &accounts, cek)?,
        Err(kid) => processor::remove_cek(&PROGRAM_ID, &accounts, kid.to_string())?,
    };
    assert!(commit(&mut accounts, &PROGRAM_ID, &updates));
    for account in accounts {
        context.ledger.insert(account.key, (account.owner, account.data));
    }
    Ok(())
}

#[test]
fn ceks_are_added_and_removed_by_key_id() {
    let (mut context, cek_account) = with_cek_list([11u8; 32]);

    change_cek_list(&mut context, cek_account, Ok(SolariumContext::make_dummy_cekdata("key2")))
        .unwrap();
    change_cek_list(&mut context, cek_account, Err("key1")).unwrap();
    let list = decode::<CEKAccountDataV1>(&context.ledger[&cek_account].1).unwrap();
    assert_eq!(list.ceks, vec![SolariumContext::make_dummy_cekdata("key2")]);

    let before = context.ledger[&cek_account].clone();
    assert_eq!(
        change_cek_list(&mut context, cek_account, Err("key9")).unwrap_err(),
        ProcessError::Custom(SolariumError::CEKNotFound)
    );
    assert_eq!(context.ledger[&cek_account], before);
}

#[test]
fn ceks_of_another_did_are_not_changed() {
    let (mut context, cek_account) = with_cek_list([12u8; 32]);
    assert_eq!(
        change_cek_list(&mut context, cek_account, Err("key1")).unwrap_err(),
        ProcessError::Custom(SolariumError::IncorrectAuthority)
    );
    assert_eq!(
        change_cek_list(&mut context, cek_account, Ok(SolariumContext::make_dummy_cekdata("k")))
            .unwrap_err(),
        ProcessError::Custom(SolariumError::IncorrectAuthority)
    );
}

#[test]
fn ceks_beyond_the_limit_are_refused() {
    let (mut context, cek_account) = with_cek_list([11u8; 32]);
    for n in 2..9 {
        let cek = SolariumContext::make_dummy_cekdata(&format!("key{}", n));
        change_cek_list(&mut context, cek_account, Ok(cek)).unwrap();
    }
    assert_eq!(
        change_cek_list(&mut context, cek_account, Ok(SolariumContext::make_dummy_cekdata("k9")))
            .unwrap_err(),
        ProcessError::Custom(SolariumError::Overflow)
    );
    let list = decode::<CEKAccountDataV1>(&context.ledger[&cek_account].1).unwrap();
    assert_eq!(list.ceks.len(), 8);
}

#[test]
fn commit_leaves_out_an_update_that_does_not_fit() {
    let mut accounts = vec![Account {
        key: [1u8; 32],
        owner: PROGRAM_ID,
        is_signer: false,
        data: vec![9, 9, 9],
    }];
    let fits = AccountUpdate { account: 0, allocation: None, data: vec![1, 2] };
    let too_long = AccountUpdate { account: 0, allocation: None, data: vec![1, 2, 3, 4] };
    let elsewhere = AccountUpdate { account: 1, allocation: None, data: vec![] };
    assert!(!commit(&mut accounts, &PROGRAM_ID, &vec![too_long, fits, elsewhere]));
    assert_eq!(accounts[0].data, vec![1, 2, 9]);
}
