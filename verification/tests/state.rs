use borsh::BorshSerialize;
use solarium::error::{ProcessError, SolariumError};
use solarium::processor::funding_lamports;
use solarium::records::{decode, encode};
use solarium::state::{
    push_into_deque, CEKAccountDataV1, CEKAccountDataV2, CEKDataV1, ChannelData,
    EncryptedKeyData, Message, Notification, NotificationType, Notifications, UserDetails,
};
use solarium::wire::{is_all_zero, same_bytes, zero_bytes};

fn key(kid: &[u8; 8]) -> EncryptedKeyData {
    EncryptedKeyData { header: [1; 8], kid: *kid, encrypted_key: [2; 104] }
}

fn cek(kid: &str) -> CEKDataV1 {
    CEKDataV1 { header: "h".to_string(), kid: kid.to_string(), encrypted_key: "k".to_string() }
}

fn key_bytes(key: &EncryptedKeyData) -> Vec<u8> {
    let mut bytes = key.header.to_vec();
    bytes.extend(key.kid);
    bytes.extend(key.encrypted_key);
    bytes
}

#[test]
fn error_codes() {
    let all = [
        SolariumError::IncorrectAuthority,
        SolariumError::Overflow,
        SolariumError::CEKNotFound,
        SolariumError::CEKIncorrectChannel,
        SolariumError::AlreadyInUse,
        SolariumError::AddressDerivationMismatch,
        SolariumError::KeyNotFound,
    ];
    for (code, error) in all.iter().enumerate() {
        assert_eq!(error.code() as usize, code);
        assert_eq!(SolariumError::from_code(code as u32), Some(*error));
    }
    assert_eq!(SolariumError::from_code(7), None);
    assert_eq!(SolariumError::type_of(), "Solarium Error");
}

#[test]
fn error_messages() {
    assert_eq!(SolariumError::IncorrectAuthority.message(), "Incorrect authority provided");
    assert_eq!(SolariumError::Overflow.message(), "Calculation overflow");
    assert_eq!(SolariumError::CEKNotFound.message(), "CEK not found");
    assert_eq!(SolariumError::CEKIncorrectChannel.message(), "CEK not valid for this channel");
    assert_eq!(
        SolariumError::AlreadyInUse.message(),
        "Attempt to create a channel for an address that is already in use"
    );
    assert_eq!(
        SolariumError::AddressDerivationMismatch.message(),
        "Incorrect account address derivation"
    );
    assert_eq!(SolariumError::KeyNotFound.message(), "Key not found");
    assert_ne!(
        ProcessError::Custom(SolariumError::KeyNotFound),
        ProcessError::Custom(SolariumError::CEKNotFound)
    );
}

#[test]
fn push_into_deque_below_the_bound() {
    assert_eq!(push_into_deque(vec![1, 2], 3, 3), vec![1, 2, 3]);
    assert_eq!(push_into_deque(Vec::<u8>::new(), 3, 1), vec![3]);
}

#[test]
fn push_into_deque_at_the_bound() {
    assert_eq!(push_into_deque(vec![1, 2, 3], 4, 3), vec![2, 3, 4]);
    assert_eq!(push_into_deque(Vec::<u8>::new(), 3, 0), Vec::<u8>::new());
    // a log that is over its bound already loses one entry, not more
    assert_eq!(push_into_deque(vec![1, 2, 3, 4], 5, 2), vec![2, 3, 4, 5]);
}

#[test]
fn push_into_deque_keeps_the_newest() {
    let mut log: Vec<u32> = vec![];
    for n in 0..11 {
        log = push_into_deque(log, n, 8);
    }
    assert_eq!(log, vec![3, 4, 5, 6, 7, 8, 9, 10]);
}

#[test]
fn channel_post_sets_the_time_and_bounds_the_log() {
    let mut channel = ChannelData::new("general".to_string());
    assert!(channel.is_initialized());
    assert!(!ChannelData::new("".to_string()).is_initialized());
    assert!(!ChannelData::default().is_initialized());
    for n in 0..9i64 {
        let mut message = Message::new([1u8; 32], format!("m{}", n));
        assert_eq!(message.timestamp, 0);
        message.timestamp = 5;
        channel.post(message, 100 + n);
    }
    assert_eq!(channel.messages.len(), 8);
    assert_eq!(channel.messages[0], Message::new_with_timestamp([1u8; 32], "m1".to_string(), 101));
    assert_eq!(channel.messages[7], Message::new_with_timestamp([1u8; 32], "m8".to_string(), 108));
}

#[test]
fn sizes() {
    assert_eq!(ChannelData::DEFAULT_SIZE, 8);
    assert_eq!(ChannelData::MESSAGE_SIZE, 512);
    assert_eq!(ChannelData::size_bytes(), 4160);
    assert_eq!(CEKAccountDataV1::MAX_CEKS, 8);
    assert_eq!(CEKAccountDataV2::SIZE_BYTES, 184);
    assert_eq!(UserDetails::DEFAULT_SIZE_BYTES, 3072);
    assert_eq!(Notifications::DEFAULT_SIZE, 8);
    assert_eq!(Notifications::new(8).size_bytes(), 269);
    assert_eq!(Notifications::new(0).size_bytes(), 5);
    assert_eq!(Notifications::new(255).size_bytes(), 8420);
    let mut full = Notifications::new(3);
    for _ in 0..3 {
        full.add(Notification::default());
    }
    assert_eq!(encode(&full).unwrap().len() as u64, full.size_bytes());
}

#[test]
fn funding() {
    assert_eq!(funding_lamports(0), 1);
    assert_eq!(funding_lamports(1), 1);
    assert_eq!(funding_lamports(2_039_280), 2_039_280);
}

#[test]
fn cek_account_add_and_remove() {
    let mut account = CEKAccountDataV1::new([1u8; 32], [2u8; 32]);
    assert!(account.is_initialized());
    account.add(cek("key1")).unwrap();
    account.add(cek("key2")).unwrap();
    account.remove("key1".to_string()).unwrap();
    assert_eq!(account.ceks, vec![cek("key2")]);
    assert_eq!(account.remove("key9".to_string()), Err(SolariumError::CEKNotFound));
    assert_eq!(account.ceks, vec![cek("key2")]);
}

#[test]
fn cek_account_remove_takes_the_first_and_keeps_the_order() {
    let mut account = CEKAccountDataV1::new([1u8; 32], [2u8; 32]);
    let mut twin = cek("b");
    twin.header = "second".to_string();
    account.add_all(vec![cek("a"), cek("b"), cek("c"), twin.clone()]).unwrap();
    account.remove("b".to_string()).unwrap();
    assert_eq!(account.ceks, vec![cek("a"), cek("c"), twin]);
}

#[test]
fn cek_account_is_bounded() {
    let mut account = CEKAccountDataV1::new([1u8; 32], [2u8; 32]);
    for n in 0..8 {
        account.add(cek(&format!("key{}", n))).unwrap();
    }
    assert_eq!(account.add(cek("key8")), Err(SolariumError::Overflow));
    assert_eq!(account.ceks.len(), 8);
    let mut account = CEKAccountDataV1::new([1u8; 32], [2u8; 32]);
    account.add_all(vec![cek("a"); 7]).unwrap();
    assert_eq!(account.add_all(vec![cek("b"); 2]), Err(SolariumError::Overflow));
    assert_eq!(account.ceks, vec![cek("a"); 7]);
    account.add_all(vec![cek("b")]).unwrap();
    assert_eq!(account.ceks.len(), 8);
}

#[test]
fn user_details_add_and_remove() {
    let mut details = UserDetails::default();
    assert!(!details.is_initialized());
    details.alias = "Alice".to_string();
    assert!(details.is_initialized());
    details.add_key(key(b"key1    "));
    details.add_key(key(b"key2    "));
    details.remove_key(*b"key1    ").unwrap();
    assert_eq!(details.encrypted_user_private_key_data, vec![key(b"key2    ")]);
    assert_eq!(details.remove_key(*b"key9    "), Err(SolariumError::KeyNotFound));
    assert_eq!(details.encrypted_user_private_key_data, vec![key(b"key2    ")]);
}

#[test]
fn user_details_add_all_and_remove_the_first() {
    let mut details = UserDetails::default();
    let mut twin = key(b"b       ");
    twin.header = [9; 8];
    details.add_key(key(b"a       "));
    details.add_all(vec![key(b"b       "), key(b"c       "), twin]);
    details.remove_key(*b"b       ").unwrap();
    assert_eq!(
        details.encrypted_user_private_key_data,
        vec![key(b"a       "), key(b"c       "), twin]
    );
}

#[test]
fn notifications_are_bounded() {
    let mut notifications = Notifications::new(2);
    assert!(notifications.is_initialized());
    assert!(!Notifications::new(0).is_initialized());
    for n in 0..3u8 {
        notifications.add(Notification {
            notification_type: NotificationType::DirectChannel,
            pubkey: [n; 32],
        });
    }
    assert_eq!(notifications.notifications.len(), 2);
    assert_eq!(notifications.notifications[0].pubkey, [1u8; 32]);
    assert_eq!(notifications.notifications[1].pubkey, [2u8; 32]);
    assert_eq!(NotificationType::default(), NotificationType::GroupChannel);
}

#[test]
fn bytes_helpers() {
    assert!(same_bytes(b"key1    ", b"key1    "));
    assert!(!same_bytes(b"key1    ", b"key1   x"));
    assert_eq!(zero_bytes::<8>(), [0u8; 8]);
    assert!(is_all_zero(&[0, 0, 0]));
    assert!(is_all_zero(&[]));
    assert!(!is_all_zero(&[0, 0, 1]));
}

#[test]
fn channel_bytes_are_those_of_the_ledger_codec() {
    let mut channel = ChannelData::new("général".to_string());
    channel.post(Message::new([1u8; 32], "hello".to_string()), -5);
    channel.post(Message::new([2u8; 32], "".to_string()), i64::MAX);
    channel.post(Message::new([3u8; 32], "x".to_string()), i64::MIN);
    let expected = (
        "général".to_string(),
        vec![
            (-5i64, [1u8; 32], "hello".to_string()),
            (i64::MAX, [2u8; 32], "".to_string()),
            (i64::MIN, [3u8; 32], "x".to_string()),
        ],
    )
        .try_to_vec()
        .unwrap();
    let bytes = encode(&channel).unwrap();
    assert_eq!(bytes, expected);
    assert_eq!(decode::<ChannelData>(&bytes), Some(channel.clone()));
    let mut with_tail = bytes.clone();
    with_tail.extend([0u8; 40]);
    assert_eq!(decode::<ChannelData>(&with_tail), Some(channel));
    assert_eq!(decode::<ChannelData>(&bytes[..bytes.len() - 1]), None);
}

#[test]
fn user_details_bytes_are_those_of_the_ledger_codec() {
    let details = UserDetails {
        alias: "Alice".to_string(),
        address_book: "book".to_string(),
        encrypted_user_private_key_data: vec![key(b"key1    "), key(b"key2    ")],
        user_public_key: [7u8; 32],
    };
    let mut expected = ("Alice".to_string(), "book".to_string(), 2u32).try_to_vec().unwrap();
    expected.extend(key_bytes(&key(b"key1    ")));
    expected.extend(key_bytes(&key(b"key2    ")));
    expected.extend([7u8; 32]);
    let bytes = encode(&details).unwrap();
    assert_eq!(bytes, expected);
    assert_eq!(decode::<UserDetails>(&bytes), Some(details));
}

#[test]
fn notifications_bytes_are_those_of_the_ledger_codec() {
    let mut notifications = Notifications::new(300u16 as u8);
    notifications.add(Notification {
        notification_type: NotificationType::GroupChannel,
        pubkey: [1u8; 32],
    });
    notifications.add(Notification {
        notification_type: NotificationType::DirectChannel,
        pubkey: [2u8; 32],
    });
    let expected = (vec![(0u8, [1u8; 32]), (1u8, [2u8; 32])], 44u8).try_to_vec().unwrap();
    let bytes = encode(&notifications).unwrap();
    assert_eq!(bytes, expected);
    assert_eq!(decode::<Notifications>(&bytes), Some(notifications));
    let mut unknown = bytes.clone();
    unknown[4] = 2;
    assert_eq!(decode::<Notifications>(&unknown), None);
}

#[test]
fn cek_account_bytes_are_those_of_the_ledger_codec() {
    let account = CEKAccountDataV2::new([1u8; 32], [2u8; 32], key(b"key1    "));
    let mut expected = ([1u8; 32], [2u8; 32]).try_to_vec().unwrap();
    expected.extend(key_bytes(&key(b"key1    ")));
    let bytes = encode(&account).unwrap();
    assert_eq!(bytes.len(), 184);
    assert_eq!(bytes, expected);
    assert_eq!(decode::<CEKAccountDataV2>(&bytes), Some(account));
    assert!(account.is_initialized());
    assert_eq!(decode::<CEKAccountDataV2>(&bytes[..183]), None);

    let mut legacy = CEKAccountDataV1::new([1u8; 32], [2u8; 32]);
    legacy.add_all(vec![cek("key1"), cek("key2")]).unwrap();
    let expected = (
        [1u8; 32],
        [2u8; 32],
        vec![
            ("h".to_string(), "key1".to_string(), "k".to_string()),
            ("h".to_string(), "key2".to_string(), "k".to_string()),
        ],
    )
        .try_to_vec()
        .unwrap();
    let bytes = encode(&legacy).unwrap();
    assert_eq!(bytes, expected);
    assert_eq!(decode::<CEKAccountDataV1>(&bytes), Some(legacy));
}

#[test]
fn zero_bytes_hold_the_blank_record() {
    assert_eq!(decode::<ChannelData>(&[]), Some(ChannelData::default()));
    assert_eq!(decode::<ChannelData>(&[0u8; 3]), Some(ChannelData::default()));
    assert_eq!(decode::<ChannelData>(&[0u8; 4160]), Some(ChannelData::default()));
    assert_eq!(decode::<UserDetails>(&[0u8; 5]), Some(UserDetails::default()));
    assert_eq!(decode::<UserDetails>(&[0u8; 3072]), Some(UserDetails::default()));
    assert_eq!(decode::<Notifications>(&[]), Some(Notifications::default()));
    assert_eq!(decode::<Notifications>(&[0u8; 73]), Some(Notifications::default()));
    assert_eq!(decode::<CEKAccountDataV2>(&[0u8; 10]), Some(CEKAccountDataV2::default()));
    assert_eq!(decode::<CEKAccountDataV1>(&[0u8; 68]), Some(CEKAccountDataV1::default()));
    assert_eq!(CEKDataV1::default().kid, "");
    assert_eq!(Message::default(), Message::new([0u8; 32], "".to_string()));
    // data that ends early and is not blank holds no record
    assert_eq!(decode::<ChannelData>(&[1, 0, 0]), None);
}

#[test]
fn text_that_is_not_utf8_holds_no_record() {
    let mut bytes = vec![2, 0, 0, 0, 0xff, 0xfe];
    bytes.extend([0u8; 4]);
    assert_eq!(decode::<ChannelData>(&bytes), None);
    let mut bytes = vec![2, 0, 0, 0, 0xc3, 0xa9];
    bytes.extend([0u8; 4]);
    assert_eq!(decode::<ChannelData>(&bytes), Some(ChannelData::new("é".to_string())));
}
