//! Program instructions

use crate::address::{
    cek_account_seeds, get_cek_account_address_with_seed,
    get_notifications_account_address_with_seed, get_userdetails_account_address_with_seed,
    notifications_account_seeds, program_address, userdetails_account_seeds, Address,
    RENT_SYSVAR_ID, SYSTEM_PROGRAM_ID,
};
use crate::error::ProcessError;
use crate::records::{
    lemma_concat_assoc, lemma_parse_ser_list, lemma_ser_parse_list, list_fits, parse_list,
    read_list, ser_list, write_list, Wire,
};
use crate::state::{
    views, EncryptedKeyData, EncryptedKeyView, Kid, Message, Notification, NotificationType,
    NotificationView, UserPubKey,
};
use crate::wire::{
    lemma_parse_bytes, lemma_parse_ser_text, lemma_parse_ser_u32, lemma_parse_ser_u8,
    lemma_parse_zero, lemma_parsed, lemma_parsed_bytes, lemma_parsed_text, lemma_parsed_u32,
    parse_bytes, parse_text, parse_u32, parse_u8, read_array, read_text,
    read_u32, read_u8, ser_text, ser_u32, ser_u8, text_fits, write_bytes, write_text, write_u32,
    write_u8,
};
use vstd::prelude::*;

verus! {

/// Instructions supported by the program
#[derive(Clone, Debug, PartialEq)]
pub enum SolariumInstruction {
    /// Create a new channel
    ///
    /// Accounts expected by this instruction:
    ///
    /// 0. `[writable, signer]` Funding account, must be a system account
    /// 1. `[writable]` Unallocated channel account, must be a program address
    /// 2. `[]` Creator DID account - must be owned by the sol-did program
    /// 3. `[signer]` Creator authority - must be a key on the creator DID
    /// 4. `[writeable]` Unallocated creator CEK account, must be a program address
    /// 5. `[]` Rent sysvar
    /// 6. `[]` System program
    InitializeChannel {
        /// The channel name
        name: String,
        /// The encrypted CEK signed by the invitee's user key
        cek: EncryptedKeyData,
    },
    /// Create a new direct channel with two participants
    ///
    /// Accounts expected by this instruction:
    ///
    /// 0. `[writable, signer]` Funding account, must be a system account
    /// 1. `[writable]` Unallocated channel account, must be a program address, derived from the participants' DIDs
    /// 2. `[]` Creator DID account - must be owned by the sol-did program
    /// 3. `[signer]` Creator authority - must be a key on the creator DID
    /// 4. `[writeable]` Unallocated creator CEK account, must be a program address
    /// 5. `[]` Invitee DID account - must be owned by the sol-did program
    /// 6. `[writeable]` Unallocated invitee CEK account, must be a program address
    /// 7. `[]` Rent sysvar
    /// 8. `[]` System program
    InitializeDirectChannel {
        /// The encrypted CEK signed by the creator's user key
        creator_cek: EncryptedKeyData,
        /// The encrypted CEK signed by the invitee's user key
        invitee_cek: EncryptedKeyData,
    },
    /// Post a message to the provided channel account
    ///
    /// Accounts expected by this instruction:
    ///
    /// 0. `[writable]` Channel account, must be previously initialized
    /// 1. `[]` Sender DID account
    /// 2. `[signer]` Sender signer account (must be an authority on the sender DID)
    /// 3. `[]` Sender CEK account for this channel (proves permissions to write to this channel)
    Post {
        /// The encrypted message content
        message: String,
    },
    /// Create a new CEK Account for a DID and a channel
    ///
    /// Creating a CEK account is equivalent to adding the DID to the channel.
    /// Only an existing member of a channel can add someone to the channel.
    ///
    /// Accounts expected by this instruction:
    ///
    /// 0. `[writable, signer]` Funding account, must be a system account
    /// 1. `[]` Invitee DID account - must be owned by the sol-did program
    /// 2. `[]` Inviter DID account - must be owned by the sol-did program
    /// 3. `[signer]` Inviter authority - must be a key on the inviter DID
    /// 4. `[]` Inviter CEK account, this ensures the inviter has permissions to add new users
    /// 5. `[writable]` Unallocated CEK account, must be a program address
    /// 6. `[]` Channel account, must be previously initialized
    /// 7. `[]` Rent sysvar
    /// 8. `[]` System program
    AddToChannel {
        /// The encrypted channel CEK, signed by the invitee's user key
        cek: EncryptedKeyData,
    },
    /// Add an encrypted user key to an existing UserDetails account
    ///
    /// Accounts expected by this instruction:
    ///
    /// 0. `[]` Owner DID account - must be owned by the sol-did program
    /// 1. `[signer]` Owner authority - must be a key on the owner DID
    /// 2. `[writable]` UserDetails account, must be owned by the owner DID
    AddEncryptedUserKey {
        /// A new key to add to the account
        key_data: EncryptedKeyData,
    },
    /// Remove a key from an existing UserDetails account
    ///
    /// Accounts expected by this instruction:
    ///
    /// 0. `[]` Owner DID account - must be owned by the sol-did program
    /// 1. `[signer]` Owner authority - must be a key on the owner DID
    /// 2. `[writable]` UserDetails account, must be owned by the owner DID
    RemoveEncryptedUserKey {
        /// The key id of the encrypted key to remove
        kid: Kid,
    },
    /// Creates a UserDetails account
    ///
    /// Accounts expected by this instruction:
    ///
    /// 0. `[writable, signer]` Funding account, must be a system account
    /// 1. `[]` Owner DID account - must be owned by the sol-did program
    /// 2. `[signer]` Owner authority - must be a key on the owner DID
    /// 3. `[writable]` UserDetails account, must be owned by the owner DID
    /// 4. `[]` Rent sysvar
    /// 5. `[]` System program
    CreateUserDetails {
        /// The user's public alias
        alias: String,
        /// The user's encrypted address book
        address_book: String,
        /// The public part of the user key
        user_pub_key: UserPubKey,
        /// The user private key, encrypted for each key in their DID at time of creation
        encrypted_user_private_key_data: Vec<EncryptedKeyData>,
        /// The size of the userDetails account
        size: u32,
    },
    /// Updates a UserDetails account
    ///
    /// Accounts expected by this instruction:
    ///
    /// 0. `[]` Owner DID account - must be owned by the sol-did program
    /// 1. `[signer]` Owner authority - must be a key on the owner DID
    /// 2. `[writable]` UserDetails account, must be owned by the owner DID
    UpdateUserDetails {
        /// The user's new public alias
        alias: String,
        /// The user's encrypted address book
        address_book: String,
    },
    /// Creates a Notifications account
    ///
    /// Accounts expected by this instruction:
    ///
    /// 0. `[writable, signer]` Funding account, must be a system account
    /// 1. `[]` Owner DID account - must be owned by the sol-did program
    /// 2. `[signer]` Owner authority - must be a key on the owner DID
    /// 3. `[writable]` Notifications account, must be owned by the owner DID
    /// 4. `[]` Rent sysvar
    /// 5. `[]` System program
    CreateNotifications {
        /// The size of the notifications cache
        size: u8,
    },
    /// Add a notification for a user
    ///
    /// Accounts expected by this instruction:
    ///
    /// 0. `[writable]` Notifications account, must be previously initialized
    /// 1. `[]` Sender DID account
    /// 2. `[signer]` Sender signer account (must be an authority on the sender DID)
    AddNotification {
        /// The notification type
        notification_type: NotificationType,
        /// The public key relating to the notification.
        /// The key should be interpreted in relation to the notification type.
        pubkey: Address,
    },
}

/// An instruction as a value of sequences: what the contracts say of instructions.
pub enum InstructionView {
    InitializeChannel { name: Seq<char>, cek: EncryptedKeyView },
    InitializeDirectChannel { creator_cek: EncryptedKeyView, invitee_cek: EncryptedKeyView },
    Post { message: Seq<char> },
    AddToChannel { cek: EncryptedKeyView },
    AddEncryptedUserKey { key_data: EncryptedKeyView },
    RemoveEncryptedUserKey { kid: Seq<u8> },
    CreateUserDetails {
        alias: Seq<char>,
        address_book: Seq<char>,
        user_pub_key: Seq<u8>,
        encrypted_user_private_key_data: Seq<EncryptedKeyView>,
        size: u32,
    },
    UpdateUserDetails { alias: Seq<char>, address_book: Seq<char> },
    CreateNotifications { size: u8 },
    AddNotification { notification_type: NotificationType, pubkey: Seq<u8> },
}

impl View for SolariumInstruction {
    type V = InstructionView;

    open spec fn view(&self) -> InstructionView {
        match *self {
            SolariumInstruction::InitializeChannel { name, cek } => {
                InstructionView::InitializeChannel { name: name@, cek: cek@ }
            },
            SolariumInstruction::InitializeDirectChannel { creator_cek, invitee_cek } => {
                InstructionView::InitializeDirectChannel {
                    creator_cek: creator_cek@,
                    invitee_cek: invitee_cek@,
                }
            },
            SolariumInstruction::Post { message } => InstructionView::Post { message: message@ },
            SolariumInstruction::AddToChannel { cek } => InstructionView::AddToChannel {
                cek: cek@,
            },
            SolariumInstruction::AddEncryptedUserKey { key_data } => {
                InstructionView::AddEncryptedUserKey { key_data: key_data@ }
            },
            SolariumInstruction::RemoveEncryptedUserKey { kid } => {
                InstructionView::RemoveEncryptedUserKey { kid: kid@ }
            },
            SolariumInstruction::CreateUserDetails {
                alias,
                address_book,
                user_pub_key,
                encrypted_user_private_key_data,
                size,
            } => InstructionView::CreateUserDetails {
                alias: alias@,
                address_book: address_book@,
                user_pub_key: user_pub_key@,
                encrypted_user_private_key_data: views(encrypted_user_private_key_data@),
                size,
            },
            SolariumInstruction::UpdateUserDetails { alias, address_book } => {
                InstructionView::UpdateUserDetails { alias: alias@, address_book: address_book@ }
            },
            SolariumInstruction::CreateNotifications { size } => {
                InstructionView::CreateNotifications { size }
            },
            SolariumInstruction::AddNotification { notification_type, pubkey } => {
                InstructionView::AddNotification { notification_type, pubkey: pubkey@ }
            },
        }
    }
}

impl InstructionView {
    /// The byte that an instruction of this kind starts with.
    pub open spec fn tag(self) -> u8 {
        match self {
            InstructionView::InitializeChannel { .. } => 0,
            InstructionView::InitializeDirectChannel { .. } => 1,
            InstructionView::Post { .. } => 2,
            InstructionView::AddToChannel { .. } => 3,
            InstructionView::AddEncryptedUserKey { .. } => 4,
            InstructionView::RemoveEncryptedUserKey { .. } => 5,
            InstructionView::CreateUserDetails { .. } => 6,
            InstructionView::UpdateUserDetails { .. } => 7,
            InstructionView::CreateNotifications { .. } => 8,
            InstructionView::AddNotification { .. } => 9,
        }
    }

    /// Whether the fields of the instruction fit the layout.
    pub open spec fn fields_fit(self) -> bool {
        match self {
            InstructionView::InitializeChannel { name, cek } => text_fits(name)
                && cek.well_formed(),
            InstructionView::InitializeDirectChannel { creator_cek, invitee_cek } => {
                creator_cek.well_formed() && invitee_cek.well_formed()
            },
            InstructionView::Post { message } => text_fits(message),
            InstructionView::AddToChannel { cek } => cek.well_formed(),
            InstructionView::AddEncryptedUserKey { key_data } => key_data.well_formed(),
            InstructionView::RemoveEncryptedUserKey { kid } => kid.len() == 8,
            InstructionView::CreateUserDetails {
                alias,
                address_book,
                user_pub_key,
                encrypted_user_private_key_data,
                size,
            } => {
                &&& text_fits(alias)
                &&& text_fits(address_book)
                &&& user_pub_key.len() == 32
                &&& list_fits::<EncryptedKeyData>(encrypted_user_private_key_data)
            },
            InstructionView::UpdateUserDetails { alias, address_book } => text_fits(alias)
                && text_fits(address_book),
            InstructionView::CreateNotifications { size } => true,
            InstructionView::AddNotification { notification_type, pubkey } => pubkey.len() == 32,
        }
    }

    /// The bytes of the fields of the instruction, in their order.
    pub open spec fn ser_fields(self) -> Seq<u8> {
        match self {
            InstructionView::InitializeChannel { name, cek } => ser_text(name)
                + EncryptedKeyData::ser(cek),
            InstructionView::InitializeDirectChannel { creator_cek, invitee_cek } => {
                EncryptedKeyData::ser(creator_cek) + EncryptedKeyData::ser(invitee_cek)
            },
            InstructionView::Post { message } => ser_text(message),
            InstructionView::AddToChannel { cek } => EncryptedKeyData::ser(cek),
            InstructionView::AddEncryptedUserKey { key_data } => EncryptedKeyData::ser(key_data),
            InstructionView::RemoveEncryptedUserKey { kid } => kid,
            InstructionView::CreateUserDetails {
                alias,
                address_book,
                user_pub_key,
                encrypted_user_private_key_data,
                size,
            } => ser_text(alias) + ser_text(address_book) + user_pub_key + ser_list::<
                EncryptedKeyData,
            >(encrypted_user_private_key_data) + ser_u32(size),
            InstructionView::UpdateUserDetails { alias, address_book } => ser_text(alias)
                + ser_text(address_book),
            InstructionView::CreateNotifications { size } => ser_u8(size),
            InstructionView::AddNotification { notification_type, pubkey } => Notification::ser(
                NotificationView { notification_type, pubkey },
            ),
        }
    }
}

/// Reads the fields of `InitializeChannel`.
pub open spec fn parse_initialize_channel(input: Seq<u8>) -> Option<(InstructionView, Seq<u8>)> {
    match parse_text(input) {
        Some((name, input)) => match EncryptedKeyData::parse(input) {
            Some((cek, rest)) => Some((InstructionView::InitializeChannel { name, cek }, rest)),
            None => None,
        },
        None => None,
    }
}

/// Reads the fields of `InitializeDirectChannel`.
pub open spec fn parse_initialize_direct_channel(input: Seq<u8>) -> Option<
    (InstructionView, Seq<u8>),
> {
    match EncryptedKeyData::parse(input) {
        Some((creator_cek, input)) => match EncryptedKeyData::parse(input) {
            Some((invitee_cek, rest)) => Some(
                (InstructionView::InitializeDirectChannel { creator_cek, invitee_cek }, rest),
            ),
            None => None,
        },
        None => None,
    }
}

/// Reads the fields of `CreateUserDetails`.
pub open spec fn parse_create_user_details(input: Seq<u8>) -> Option<(InstructionView, Seq<u8>)> {
    match parse_text(input) {
        Some((alias, input)) => match parse_text(input) {
            Some((address_book, input)) => match parse_bytes(input, 32) {
                Some((user_pub_key, input)) => match parse_list::<EncryptedKeyData>(input) {
                    Some((encrypted_user_private_key_data, input)) => match parse_u32(input) {
                        Some((size, rest)) => Some(
                            (
                                InstructionView::CreateUserDetails {
                                    alias,
                                    address_book,
                                    user_pub_key,
                                    encrypted_user_private_key_data,
                                    size,
                                },
                                rest,
                            ),
                        ),
                        None => None,
                    },
                    None => None,
                },
                None => None,
            },
            None => None,
        },
        None => None,
    }
}

/// Reads the fields of `UpdateUserDetails`.
pub open spec fn parse_update_user_details(input: Seq<u8>) -> Option<(InstructionView, Seq<u8>)> {
    match parse_text(input) {
        Some((alias, input)) => match parse_text(input) {
            Some((address_book, rest)) => Some(
                (InstructionView::UpdateUserDetails { alias, address_book }, rest),
            ),
            None => None,
        },
        None => None,
    }
}

/// Reads the fields of the instruction that starts with the byte `tag`.
pub open spec fn parse_fields(tag: u8, input: Seq<u8>) -> Option<(InstructionView, Seq<u8>)> {
    if tag == 0 {
        parse_initialize_channel(input)
    } else if tag == 1 {
        parse_initialize_direct_channel(input)
    } else if tag == 2 {
        match parse_text(input) {
            Some((message, rest)) => Some((InstructionView::Post { message }, rest)),
            None => None,
        }
    } else if tag == 3 {
        match EncryptedKeyData::parse(input) {
            Some((cek, rest)) => Some((InstructionView::AddToChannel { cek }, rest)),
            None => None,
        }
    } else if tag == 4 {
        match EncryptedKeyData::parse(input) {
            Some((key_data, rest)) => Some(
                (InstructionView::AddEncryptedUserKey { key_data }, rest),
            ),
            None => None,
        }
    } else if tag == 5 {
        match parse_bytes(input, 8) {
            Some((kid, rest)) => Some((InstructionView::RemoveEncryptedUserKey { kid }, rest)),
            None => None,
        }
    } else if tag == 6 {
        parse_create_user_details(input)
    } else if tag == 7 {
        parse_update_user_details(input)
    } else if tag == 8 {
        match parse_u8(input) {
            Some((size, rest)) => Some((InstructionView::CreateNotifications { size }, rest)),
            None => None,
        }
    } else if tag == 9 {
        match Notification::parse(input) {
            Some((notification, rest)) => Some(
                (
                    InstructionView::AddNotification {
                        notification_type: notification.notification_type,
                        pubkey: notification.pubkey,
                    },
                    rest,
                ),
            ),
            None => None,
        }
    } else {
        None
    }
}

/// The fields of an instruction are read back from their bytes.
pub proof fn lemma_parse_ser_fields(v: InstructionView, tail: Seq<u8>)
    requires
        v.fields_fit(),
    ensures
        parse_fields(v.tag(), v.ser_fields() + tail) == Some((v, tail)),
{
    match v {
        InstructionView::InitializeChannel { name, cek } => {
            lemma_parse_ser_text(name, EncryptedKeyData::ser(cek) + tail);
            EncryptedKeyData::lemma_parse_ser(cek, tail);
            lemma_concat_assoc(ser_text(name), EncryptedKeyData::ser(cek), tail);
        },
        InstructionView::InitializeDirectChannel { creator_cek, invitee_cek } => {
            EncryptedKeyData::lemma_parse_ser(
                creator_cek,
                EncryptedKeyData::ser(invitee_cek) + tail,
            );
            EncryptedKeyData::lemma_parse_ser(invitee_cek, tail);
            lemma_concat_assoc(
                EncryptedKeyData::ser(creator_cek),
                EncryptedKeyData::ser(invitee_cek),
                tail,
            );
        },
        InstructionView::Post { message } => {
            lemma_parse_ser_text(message, tail);
        },
        InstructionView::AddToChannel { cek } => {
            EncryptedKeyData::lemma_parse_ser(cek, tail);
        },
        InstructionView::AddEncryptedUserKey { key_data } => {
            EncryptedKeyData::lemma_parse_ser(key_data, tail);
        },
        InstructionView::RemoveEncryptedUserKey { kid } => {
            lemma_parse_bytes(kid, tail);
        },
        InstructionView::CreateUserDetails {
            alias,
            address_book,
            user_pub_key,
            encrypted_user_private_key_data,
            size,
        } => {
            let keys = ser_list::<EncryptedKeyData>(encrypted_user_private_key_data);
            let from_size = ser_u32(size) + tail;
            let from_keys = keys + from_size;
            let from_pub_key = user_pub_key + from_keys;
            lemma_parse_ser_text(alias, ser_text(address_book) + from_pub_key);
            lemma_parse_ser_text(address_book, from_pub_key);
            lemma_parse_bytes(user_pub_key, from_keys);
            lemma_parse_ser_list::<EncryptedKeyData>(encrypted_user_private_key_data, from_size);
            lemma_parse_ser_u32(size, tail);
            lemma_concat_assoc(
                ser_text(alias) + ser_text(address_book) + user_pub_key + keys,
                ser_u32(size),
                tail,
            );
            lemma_concat_assoc(
                ser_text(alias) + ser_text(address_book) + user_pub_key,
                keys,
                from_size,
            );
            lemma_concat_assoc(ser_text(alias) + ser_text(address_book), user_pub_key, from_keys);
            lemma_concat_assoc(ser_text(alias), ser_text(address_book), from_pub_key);
        },
        InstructionView::UpdateUserDetails { alias, address_book } => {
            lemma_parse_ser_text(alias, ser_text(address_book) + tail);
            lemma_parse_ser_text(address_book, tail);
            lemma_concat_assoc(ser_text(alias), ser_text(address_book), tail);
        },
        InstructionView::CreateNotifications { size } => {
            lemma_parse_ser_u8(size, tail);
        },
        InstructionView::AddNotification { notification_type, pubkey } => {
            Notification::lemma_parse_ser(NotificationView { notification_type, pubkey }, tail);
        },
    }
}

proof fn lemma_ser_parse_initialize_channel(input: Seq<u8>)
    ensures
        parse_initialize_channel(input) matches Some((v, rest)) ==> v.tag() == 0
            && v.fields_fit() && input == v.ser_fields() + rest,
{
    lemma_parsed(input, 0);
    if let Some((name, input1)) = parse_text(input) {
        EncryptedKeyData::lemma_ser_parse(input1);
        if let Some((cek, rest)) = EncryptedKeyData::parse(input1) {
            lemma_concat_assoc(ser_text(name), EncryptedKeyData::ser(cek), rest);
        }
    }
}

proof fn lemma_ser_parse_initialize_direct_channel(input: Seq<u8>)
    ensures
        parse_initialize_direct_channel(input) matches Some((v, rest)) ==> v.tag() == 1
            && v.fields_fit() && input == v.ser_fields() + rest,
{
    EncryptedKeyData::lemma_ser_parse(input);
    if let Some((creator_cek, input1)) = EncryptedKeyData::parse(input) {
        EncryptedKeyData::lemma_ser_parse(input1);
        if let Some((invitee_cek, rest)) = EncryptedKeyData::parse(input1) {
            lemma_concat_assoc(
                EncryptedKeyData::ser(creator_cek),
                EncryptedKeyData::ser(invitee_cek),
                rest,
            );
        }
    }
}

proof fn lemma_five_parts(
    input: Seq<u8>,
    a: Seq<u8>,
    b: Seq<u8>,
    c: Seq<u8>,
    d: Seq<u8>,
    e: Seq<u8>,
    rest: Seq<u8>,
)
    requires
        input == a + (b + (c + (d + (e + rest)))),
    ensures
        input == a + b + c + d + e + rest,
{
    assert(a + (b + (c + (d + (e + rest)))) =~= a + b + c + d + e + rest);
}

proof fn lemma_ser_parse_create_user_details(input: Seq<u8>)
    ensures
        parse_create_user_details(input) matches Some((v, rest)) ==> v.tag() == 6
            && v.fields_fit() && input == v.ser_fields() + rest,
{
    if let Some((v, rest)) = parse_create_user_details(input) {
        let (alias, input1) = parse_text(input).unwrap();
        let (address_book, input2) = parse_text(input1).unwrap();
        let (user_pub_key, input3) = parse_bytes(input2, 32).unwrap();
        let (keys, input4) = parse_list::<EncryptedKeyData>(input3).unwrap();
        let (size, last) = parse_u32(input4).unwrap();
        assert(rest == last);
        assert(v == InstructionView::CreateUserDetails {
            alias,
            address_book,
            user_pub_key,
            encrypted_user_private_key_data: keys,
            size,
        });
        assert(text_fits(alias) && input == ser_text(alias) + input1) by {
            lemma_parsed_text(input);
        }
        assert(text_fits(address_book) && input1 == ser_text(address_book) + input2) by {
            lemma_parsed_text(input1);
        }
        assert(user_pub_key.len() == 32 && input2 == user_pub_key + input3) by {
            lemma_parsed_bytes(input2, 32);
        }
        assert(list_fits::<EncryptedKeyData>(keys) && input3 == ser_list::<EncryptedKeyData>(keys)
            + input4) by {
            lemma_ser_parse_list::<EncryptedKeyData>(input3);
        }
        assert(input4 == ser_u32(size) + rest) by {
            lemma_parsed_u32(input4);
        }
        lemma_five_parts(
            input,
            ser_text(alias),
            ser_text(address_book),
            user_pub_key,
            ser_list::<EncryptedKeyData>(keys),
            ser_u32(size),
            rest,
        );
    }
}

proof fn lemma_ser_parse_update_user_details(input: Seq<u8>)
    ensures
        parse_update_user_details(input) matches Some((v, rest)) ==> v.tag() == 7
            && v.fields_fit() && input == v.ser_fields() + rest,
{
    lemma_parsed(input, 0);
    if let Some((alias, input1)) = parse_text(input) {
        lemma_parsed(input1, 0);
        if let Some((address_book, rest)) = parse_text(input1) {
            lemma_concat_assoc(ser_text(alias), ser_text(address_book), rest);
        }
    }
}

/// The fields that are read are those of an instruction of the kind that
/// the byte names; they fit, and the input starts with their bytes.
pub proof fn lemma_ser_parse_fields(tag: u8, input: Seq<u8>)
    ensures
        parse_fields(tag, input) matches Some((v, rest)) ==> v.tag() == tag && v.fields_fit()
            && input == v.ser_fields() + rest,
{
    if tag == 0 {
        lemma_ser_parse_initialize_channel(input);
    } else if tag == 1 {
        lemma_ser_parse_initialize_direct_channel(input);
    } else if tag == 2 {
        lemma_parsed(input, 0);
    } else if tag == 3 || tag == 4 {
        EncryptedKeyData::lemma_ser_parse(input);
    } else if tag == 5 {
        lemma_parsed(input, 8);
    } else if tag == 6 {
        lemma_ser_parse_create_user_details(input);
    } else if tag == 7 {
        lemma_ser_parse_update_user_details(input);
    } else if tag == 8 {
        lemma_parsed(input, 0);
    } else if tag == 9 {
        Notification::lemma_ser_parse(input);
    }
}

impl Wire for SolariumInstruction {
    open spec fn fits(v: InstructionView) -> bool {
        v.fields_fit()
    }

    open spec fn ser(v: InstructionView) -> Seq<u8> {
        ser_u8(v.tag()) + v.ser_fields()
    }

    open spec fn parse(input: Seq<u8>) -> Option<(InstructionView, Seq<u8>)> {
        match parse_u8(input) {
            Some((tag, input)) => parse_fields(tag, input),
            None => None,
        }
    }

    proof fn lemma_parse_ser(v: InstructionView, tail: Seq<u8>) {
        lemma_parse_ser_u8(v.tag(), v.ser_fields() + tail);
        lemma_parse_ser_fields(v, tail);
        lemma_concat_assoc(ser_u8(v.tag()), v.ser_fields(), tail);
    }

    proof fn lemma_ser_parse(input: Seq<u8>) {
        lemma_parsed(input, 0);
        if let Some((tag, input1)) = parse_u8(input) {
            lemma_ser_parse_fields(tag, input1);
            if let Some((v, rest)) = parse_fields(tag, input1) {
                lemma_concat_assoc(ser_u8(tag), v.ser_fields(), rest);
            }
        }
    }

    open spec fn blank() -> InstructionView {
        InstructionView::InitializeChannel { name: Seq::empty(), cek: EncryptedKeyData::blank() }
    }

    proof fn lemma_parse_blank(input: Seq<u8>) {
        lemma_parse_zero(input, 0);
        if let Some((tag, input)) = parse_u8(input) {
            lemma_parse_zero(input, 0);
            if let Some((name, input)) = parse_text(input) {
                EncryptedKeyData::lemma_parse_blank(input);
            }
        }
    }

    fn new_blank() -> (value: Self) {
        SolariumInstruction::InitializeChannel {
            name: String::new(),
            cek: EncryptedKeyData::new_blank(),
        }
    }

    fn read(data: &[u8], pos: usize) -> (got: Option<(Self, usize)>) {
        let (tag, at) = match read_u8(data, pos) {
            Some(read) => read,
            None => {
                return None;
            },
        };
        if tag == 0 {
            let (name, at) = match read_text(data, at) {
                Some(read) => read,
                None => {
                    return None;
                },
            };
            match EncryptedKeyData::read(data, at) {
                Some((cek, next)) => Some(
                    (SolariumInstruction::InitializeChannel { name, cek }, next),
                ),
                None => None,
            }
        } else if tag == 1 {
            let (creator_cek, at) = match EncryptedKeyData::read(data, at) {
                Some(read) => read,
                None => {
                    return None;
                },
            };
            match EncryptedKeyData::read(data, at) {
                Some((invitee_cek, next)) => Some(
                    (
                        SolariumInstruction::InitializeDirectChannel { creator_cek, invitee_cek },
                        next,
                    ),
                ),
                None => None,
            }
        } else if tag == 2 {
            match read_text(data, at) {
                Some((message, next)) => Some((SolariumInstruction::Post { message }, next)),
                None => None,
            }
        } else if tag == 3 {
            match EncryptedKeyData::read(data, at) {
                Some((cek, next)) => Some((SolariumInstruction::AddToChannel { cek }, next)),
                None => None,
            }
        } else if tag == 4 {
            match EncryptedKeyData::read(data, at) {
                Some((key_data, next)) => Some(
                    (SolariumInstruction::AddEncryptedUserKey { key_data }, next),
                ),
                None => None,
            }
        } else if tag == 5 {
            match read_array::<8>(data, at) {
                Some((kid, next)) => Some(
                    (SolariumInstruction::RemoveEncryptedUserKey { kid }, next),
                ),
                None => None,
            }
        } else if tag == 6 {
            let (alias, at) = match read_text(data, at) {
                Some(read) => read,
                None => {
                    return None;
                },
            };
            let (address_book, at) = match read_text(data, at) {
                Some(read) => read,
                None => {
                    return None;
                },
            };
            let (user_pub_key, at) = match read_array::<32>(data, at) {
                Some(read) => read,
                None => {
                    return None;
                },
            };
            let (encrypted_user_private_key_data, at) = match read_list::<EncryptedKeyData>(
                data,
                at,
            ) {
                Some(read) => read,
                None => {
                    return None;
                },
            };
            match read_u32(data, at) {
                Some((size, next)) => Some(
                    (
                        SolariumInstruction::CreateUserDetails {
                            alias,
                            address_book,
                            user_pub_key,
                            encrypted_user_private_key_data,
                            size,
                        },
                        next,
                    ),
                ),
                None => None,
            }
        } else if tag == 7 {
            let (alias, at) = match read_text(data, at) {
                Some(read) => read,
                None => {
                    return None;
                },
            };
            match read_text(data, at) {
                Some((address_book, next)) => Some(
                    (SolariumInstruction::UpdateUserDetails { alias, address_book }, next),
                ),
                None => None,
            }
        } else if tag == 8 {
            match read_u8(data, at) {
                Some((size, next)) => Some(
                    (SolariumInstruction::CreateNotifications { size }, next),
                ),
                None => None,
            }
        } else if tag == 9 {
            match Notification::read(data, at) {
                Some((notification, next)) => Some(
                    (
                        SolariumInstruction::AddNotification {
                            notification_type: notification.notification_type,
                            pubkey: notification.pubkey,
                        },
                        next,
                    ),
                ),
                None => None,
            }
        } else {
            None
        }
    }

    fn write(&self, out: &mut Vec<u8>) -> (written: bool) {
        match self {
            SolariumInstruction::InitializeChannel { name, cek } => {
                write_u8(out, 0);
                if !write_text(out, name.as_str()) {
                    return false;
                }
                cek.write(out);
            },
            SolariumInstruction::InitializeDirectChannel { creator_cek, invitee_cek } => {
                write_u8(out, 1);
                creator_cek.write(out);
                invitee_cek.write(out);
            },
            SolariumInstruction::Post { message } => {
                write_u8(out, 2);
                if !write_text(out, message.as_str()) {
                    return false;
                }
            },
            SolariumInstruction::AddToChannel { cek } => {
                write_u8(out, 3);
                cek.write(out);
            },
            SolariumInstruction::AddEncryptedUserKey { key_data } => {
                write_u8(out, 4);
                key_data.write(out);
            },
            SolariumInstruction::RemoveEncryptedUserKey { kid } => {
                write_u8(out, 5);
                write_bytes(out, kid.as_slice());
            },
            SolariumInstruction::CreateUserDetails {
                alias,
                address_book,
                user_pub_key,
                encrypted_user_private_key_data,
                size,
            } => {
                write_u8(out, 6);
                if !write_text(out, alias.as_str()) {
                    return false;
                }
                if !write_text(out, address_book.as_str()) {
                    return false;
                }
                write_bytes(out, user_pub_key.as_slice());
                if !write_list::<EncryptedKeyData>(encrypted_user_private_key_data, out) {
                    return false;
                }
                write_u32(out, *size);
            },
            SolariumInstruction::UpdateUserDetails { alias, address_book } => {
                write_u8(out, 7);
                if !write_text(out, alias.as_str()) {
                    return false;
                }
                if !write_text(out, address_book.as_str()) {
                    return false;
                }
            },
            SolariumInstruction::CreateNotifications { size } => {
                write_u8(out, 8);
                write_u8(out, *size);
            },
            SolariumInstruction::AddNotification { notification_type, pubkey } => {
                write_u8(out, 9);
                let notification = Notification {
                    notification_type: *notification_type,
                    pubkey: *pubkey,
                };
                notification.write(out);
            },
        }
        assert(out@ =~= old(out)@ + Self::ser(self@));
        true
    }
}

/// The instruction that a buffer holds: the buffer starts with the byte that
/// names the kind of instruction, the fields of that kind follow, and nothing
/// follows them. Every other buffer holds no instruction.
pub open spec fn instruction_of(input: Seq<u8>) -> Option<InstructionView> {
    match SolariumInstruction::parse(input) {
        Some((v, rest)) => if rest.len() == 0 {
            Some(v)
        } else {
            None
        },
        None => None,
    }
}

impl SolariumInstruction {
    /// Reads an instruction from a buffer that holds it and nothing else.
    pub fn try_from_slice(input: &[u8]) -> (read: Result<SolariumInstruction, ProcessError>)
        ensures
            read is Ok <==> instruction_of(input@) is Some,
            read matches Ok(instruction) ==> instruction_of(input@) == Some(instruction@),
            read matches Err(e) ==> e == ProcessError::BorshIoError,
    {
        assert(input@.skip(0) =~= input@);
        match SolariumInstruction::read(input, 0) {
            Some((instruction, next)) => {
                if next == input.len() {
                    Ok(instruction)
                } else {
                    Err(ProcessError::BorshIoError)
                }
            },
            None => Err(ProcessError::BorshIoError),
        }
    }

    /// The buffer that holds this instruction, if its fields fit the layout.
    pub fn try_to_vec(&self) -> (bytes: Option<Vec<u8>>)
        ensures
            bytes is Some <==> self@.fields_fit(),
            bytes matches Some(b) ==> b@ == SolariumInstruction::ser(self@),
    {
        let mut out: Vec<u8> = Vec::new();
        if self.write(&mut out) {
            assert(out@ =~= SolariumInstruction::ser(self@));
            Some(out)
        } else {
            None
        }
    }
}

/// An instruction is read back from the buffer that was made of it.
pub proof fn lemma_instruction_round_trip(v: InstructionView)
    requires
        v.fields_fit(),
    ensures
        instruction_of(SolariumInstruction::ser(v)) == Some(v),
{
    SolariumInstruction::lemma_parse_ser(v, Seq::empty());
    assert(SolariumInstruction::ser(v) + Seq::empty() =~= SolariumInstruction::ser(v));
}

/// A buffer holds at most one instruction, and only the buffer that is made
/// of an instruction holds it.
pub proof fn lemma_instruction_read(input: Seq<u8>)
    ensures
        instruction_of(input) matches Some(v) ==> v.fields_fit() && input
            == SolariumInstruction::ser(v),
{
    SolariumInstruction::lemma_ser_parse(input);
    if let Some((v, rest)) = SolariumInstruction::parse(input) {
        assert(SolariumInstruction::ser(v) + rest =~= SolariumInstruction::ser(v) + Seq::empty()
            || rest.len() > 0);
        assert(SolariumInstruction::ser(v) + Seq::empty() =~= SolariumInstruction::ser(v));
    }
}

/// A buffer that is empty or starts with a byte that names no kind of
/// instruction holds no instruction.
pub proof fn lemma_unknown_instruction(input: Seq<u8>)
    requires
        input.len() == 0 || input[0] > 9,
    ensures
        instruction_of(input) is None,
{
}

/// An account that an instruction names, and how the instruction uses it.
#[derive(Clone, Copy, Debug, PartialEq)]
pub struct AccountMeta {
    /// The address of the account
    pub pubkey: Address,
    /// Whether the key of the account must sign the invocation
    pub is_signer: bool,
    /// Whether the invocation may change the account
    pub is_writable: bool,
}

/// An account that an instruction names, its address as a sequence of bytes.
pub struct AccountMetaView {
    pub pubkey: Seq<u8>,
    pub is_signer: bool,
    pub is_writable: bool,
}

impl View for AccountMeta {
    type V = AccountMetaView;

    open spec fn view(&self) -> AccountMetaView {
        AccountMetaView {
            pubkey: self.pubkey@,
            is_signer: self.is_signer,
            is_writable: self.is_writable,
        }
    }
}

/// An account that the invocation may change.
pub open spec fn writable(pubkey: Seq<u8>, is_signer: bool) -> AccountMetaView {
    AccountMetaView { pubkey, is_signer, is_writable: true }
}

/// An account that the invocation only reads.
pub open spec fn readonly(pubkey: Seq<u8>, is_signer: bool) -> AccountMetaView {
    AccountMetaView { pubkey, is_signer, is_writable: false }
}

impl AccountMeta {
    /// An account that the invocation may change
    pub fn new(pubkey: Address, is_signer: bool) -> (meta: Self)
        ensures
            meta@ == writable(pubkey@, is_signer),
    {
        Self { pubkey, is_signer, is_writable: true }
    }

    /// An account that the invocation only reads
    pub fn new_readonly(pubkey: Address, is_signer: bool) -> (meta: Self)
        ensures
            meta@ == readonly(pubkey@, is_signer),
    {
        Self { pubkey, is_signer, is_writable: false }
    }
}

/// An instruction as the ledger takes it: the program to invoke, the accounts
/// to hand to it, and the buffer that holds the instruction.
#[derive(Clone, Debug, PartialEq)]
pub struct Instruction {
    /// The address of the program
    pub program_id: Address,
    /// The accounts of the invocation, in the order in which the program expects them
    pub accounts: Vec<AccountMeta>,
    /// The buffer that holds the instruction
    pub data: Vec<u8>,
}

/// An instruction for the ledger as a value of sequences.
pub struct BuiltView {
    pub program_id: Seq<u8>,
    pub accounts: Seq<AccountMetaView>,
    pub data: Seq<u8>,
}

impl View for Instruction {
    type V = BuiltView;

    open spec fn view(&self) -> BuiltView {
        BuiltView {
            program_id: self.program_id@,
            accounts: views(self.accounts@),
            data: self.data@,
        }
    }
}

/// An instruction for the ledger, or `None`.
pub open spec fn built_view(built: Option<Instruction>) -> Option<BuiltView> {
    match built {
        Some(instruction) => Some(instruction@),
        None => None,
    }
}

/// The instruction for the ledger that holds `instruction` and names
/// `accounts`, unless the fields of `instruction` do not fit the layout.
pub open spec fn built(
    program_id: Seq<u8>,
    instruction: InstructionView,
    accounts: Seq<AccountMetaView>,
) -> Option<BuiltView> {
    if instruction.fields_fit() {
        Some(BuiltView { program_id, accounts, data: SolariumInstruction::ser(instruction) })
    } else {
        None
    }
}

/// Makes the instruction for the ledger that holds `instruction` and names
/// `accounts`, unless the fields of `instruction` do not fit the layout.
pub fn build(
    program_id: &Address,
    instruction: &SolariumInstruction,
    accounts: Vec<AccountMeta>,
) -> (result: Option<Instruction>)
    ensures
        built_view(result) == built(program_id@, instruction@, views(accounts@)),
{
    match instruction.try_to_vec() {
        Some(data) => Some(Instruction { program_id: *program_id, accounts, data }),
        None => None,
    }
}

/// The accounts of `InitializeChannel`.
pub open spec fn initialize_channel_accounts(
    funder_account: Seq<u8>,
    channel: Seq<u8>,
    creator_did: Seq<u8>,
    creator_authority: Seq<u8>,
    creator_cek_account: Seq<u8>,
) -> Seq<AccountMetaView> {
    seq![
        writable(funder_account, true),
        writable(channel, false),
        readonly(creator_did, false),
        readonly(creator_authority, true),
        writable(creator_cek_account, false),
        readonly(RENT_SYSVAR_ID@, false),
        readonly(SYSTEM_PROGRAM_ID@, false),
    ]
}

/// Lists the accounts of `InitializeChannel`.
pub fn initialize_channel_account_list(
    funder_account: &Address,
    channel: &Address,
    creator_did: &Address,
    creator_authority: &Address,
    creator_cek_account: &Address,
) -> (accounts: Vec<AccountMeta>)
    ensures
        views(accounts@) == initialize_channel_accounts(
            funder_account@,
            channel@,
            creator_did@,
            creator_authority@,
            creator_cek_account@,
        ),
{
    let mut accounts: Vec<AccountMeta> = Vec::new();
    accounts.push(AccountMeta::new(*funder_account, true));
    accounts.push(AccountMeta::new(*channel, false));
    accounts.push(AccountMeta::new_readonly(*creator_did, false));
    accounts.push(AccountMeta::new_readonly(*creator_authority, true));
    accounts.push(AccountMeta::new(*creator_cek_account, false));
    accounts.push(AccountMeta::new_readonly(RENT_SYSVAR_ID, false));
    accounts.push(AccountMeta::new_readonly(SYSTEM_PROGRAM_ID, false));
    assert(views(accounts@) =~= initialize_channel_accounts(
        funder_account@,
        channel@,
        creator_did@,
        creator_authority@,
        creator_cek_account@,
    ));
    accounts
}

/// Create a `SolariumInstruction::InitializeChannel` instruction
pub fn initialize_channel(
    program_id: &Address,
    funder_account: &Address,
    channel: &Address,
    name: String,
    creator_did: &Address,
    creator_authority: &Address,
    cek: EncryptedKeyData,
) -> (result: Option<Instruction>)
    ensures
        built_view(result) == match program_address(
            cek_account_seeds(creator_did@, channel@),
            program_id@,
        ) {
            Some((creator_cek_account, bump)) => built(
                program_id@,
                InstructionView::InitializeChannel { name: name@, cek: cek@ },
                initialize_channel_accounts(
                    funder_account@,
                    channel@,
                    creator_did@,
                    creator_authority@,
                    creator_cek_account,
                ),
            ),
            None => None,
        },
{
    let (creator_cek_account, _) = get_cek_account_address_with_seed(
        program_id,
        creator_did,
        channel,
    )?;
    let accounts = initialize_channel_account_list(
        funder_account,
        channel,
        creator_did,
        creator_authority,
        &creator_cek_account,
    );
    build(program_id, &SolariumInstruction::InitializeChannel { name, cek }, accounts)
}

/// The accounts of `InitializeDirectChannel`.
pub open spec fn initialize_direct_channel_accounts(
    funder_account: Seq<u8>,
    channel: Seq<u8>,
    creator_did: Seq<u8>,
    creator_authority: Seq<u8>,
    creator_cek_account: Seq<u8>,
    invitee_did: Seq<u8>,
    invitee_cek_account: Seq<u8>,
) -> Seq<AccountMetaView> {
    seq![
        writable(funder_account, true),
        writable(channel, false),
        readonly(creator_did, false),
        readonly(creator_authority, true),
        writable(creator_cek_account, false),
        readonly(invitee_did, false),
        writable(invitee_cek_account, false),
        readonly(RENT_SYSVAR_ID@, false),
        readonly(SYSTEM_PROGRAM_ID@, false),
    ]
}

/// Lists the accounts of `InitializeDirectChannel`.
pub fn initialize_direct_channel_account_list(
    funder_account: &Address,
    channel: &Address,
    creator_did: &Address,
    creator_authority: &Address,
    creator_cek_account: &Address,
    invitee_did: &Address,
    invitee_cek_account: &Address,
) -> (accounts: Vec<AccountMeta>)
    ensures
        views(accounts@) == initialize_direct_channel_accounts(
            funder_account@,
            channel@,
            creator_did@,
            creator_authority@,
            creator_cek_account@,
            invitee_did@,
            invitee_cek_account@,
        ),
{
    let mut accounts: Vec<AccountMeta> = Vec::new();
    accounts.push(AccountMeta::new(*funder_account, true));
    accounts.push(AccountMeta::new(*channel, false));
    accounts.push(AccountMeta::new_readonly(*creator_did, false));
    accounts.push(AccountMeta::new_readonly(*creator_authority, true));
    accounts.push(AccountMeta::new(*creator_cek_account, false));
    accounts.push(AccountMeta::new_readonly(*invitee_did, false));
    accounts.push(AccountMeta::new(*invitee_cek_account, false));
    accounts.push(AccountMeta::new_readonly(RENT_SYSVAR_ID, false));
    accounts.push(AccountMeta::new_readonly(SYSTEM_PROGRAM_ID, false));
    assert(views(accounts@) =~= initialize_direct_channel_accounts(
        funder_account@,
        channel@,
        creator_did@,
        creator_authority@,
        creator_cek_account@,
        invitee_did@,
        invitee_cek_account@,
    ));
    accounts
}

/// Create a `SolariumInstruction::InitializeDirectChannel` instruction
pub fn initialize_direct_channel(
    program_id: &Address,
    funder_account: &Address,
    channel: &Address,
    creator_did: &Address,
    creator_authority: &Address,
    invitee_did: &Address,
    creator_cek: EncryptedKeyData,
    invitee_cek: EncryptedKeyData,
) -> (result: Option<Instruction>)
    ensures
        built_view(result) == match (
            program_address(cek_account_seeds(creator_did@, channel@), program_id@),
            program_address(cek_account_seeds(invitee_did@, channel@), program_id@),
        ) {
            (Some((creator_cek_account, _)), Some((invitee_cek_account, _))) => built(
                program_id@,
                InstructionView::InitializeDirectChannel {
                    creator_cek: creator_cek@,
                    invitee_cek: invitee_cek@,
                },
                initialize_direct_channel_accounts(
                    funder_account@,
                    channel@,
                    creator_did@,
                    creator_authority@,
                    creator_cek_account,
                    invitee_did@,
                    invitee_cek_account,
                ),
            ),
            _ => None,
        },
{
    let (creator_cek_account, _) = get_cek_account_address_with_seed(
        program_id,
        creator_did,
        channel,
    )?;
    let (invitee_cek_account, _) = get_cek_account_address_with_seed(
        program_id,
        invitee_did,
        channel,
    )?;
    let accounts = initialize_direct_channel_account_list(
        funder_account,
        channel,
        creator_did,
        creator_authority,
        &creator_cek_account,
        invitee_did,
        &invitee_cek_account,
    );
    build(
        program_id,
        &SolariumInstruction::InitializeDirectChannel { creator_cek, invitee_cek },
        accounts,
    )
}

/// The accounts of `Post`.
pub open spec fn post_accounts(
    channel: Seq<u8>,
    sender_did: Seq<u8>,
    sender_authority: Seq<u8>,
    sender_cek_account: Seq<u8>,
) -> Seq<AccountMetaView> {
    seq![
        writable(channel, false),
        readonly(sender_did, false),
        readonly(sender_authority, true),
        readonly(sender_cek_account, false),
    ]
}

/// Lists the accounts of `Post`.
pub fn post_account_list(
    channel: &Address,
    sender_did: &Address,
    sender_authority: &Address,
    sender_cek_account: &Address,
) -> (accounts: Vec<AccountMeta>)
    ensures
        views(accounts@) == post_accounts(
            channel@,
            sender_did@,
            sender_authority@,
            sender_cek_account@,
        ),
{
    let mut accounts: Vec<AccountMeta> = Vec::new();
    accounts.push(AccountMeta::new(*channel, false));
    accounts.push(AccountMeta::new_readonly(*sender_did, false));
    accounts.push(AccountMeta::new_readonly(*sender_authority, true));
    accounts.push(AccountMeta::new_readonly(*sender_cek_account, false));
    assert(views(accounts@) =~= post_accounts(
        channel@,
        sender_did@,
        sender_authority@,
        sender_cek_account@,
    ));
    accounts
}

/// Create a `SolariumInstruction::Post` instruction
pub fn post(
    program_id: &Address,
    channel: &Address,
    sender_authority: &Address,
    message: &Message,
) -> (result: Option<Instruction>)
    ensures
        built_view(result) == match program_address(
            cek_account_seeds(message.sender@, channel@),
            program_id@,
        ) {
            Some((sender_cek_account, bump)) => built(
                program_id@,
                InstructionView::Post { message: message.content@ },
                post_accounts(channel@, message.sender@, sender_authority@, sender_cek_account),
            ),
            None => None,
        },
{
    let (sender_cek_account, _) = get_cek_account_address_with_seed(
        program_id,
        &message.sender,
        channel,
    )?;
    let accounts = post_account_list(
        channel,
        &message.sender,
        sender_authority,
        &sender_cek_account,
    );
    build(program_id, &SolariumInstruction::Post { message: message.content.clone() }, accounts)
}

/// The accounts of `AddToChannel`.
pub open spec fn add_to_channel_accounts(
    funder_account: Seq<u8>,
    channel: Seq<u8>,
    invitee_did: Seq<u8>,
    inviter_did: Seq<u8>,
    inviter_authority: Seq<u8>,
    inviter_cek_account: Seq<u8>,
    invitee_cek_account: Seq<u8>,
) -> Seq<AccountMetaView> {
    seq![
        writable(funder_account, true),
        readonly(invitee_did, false),
        readonly(inviter_did, false),
        readonly(inviter_authority, true),
        readonly(inviter_cek_account, false),
        writable(invitee_cek_account, false),
        readonly(channel, false),
        readonly(RENT_SYSVAR_ID@, false),
        readonly(SYSTEM_PROGRAM_ID@, false),
    ]
}

/// Lists the accounts of `AddToChannel`.
pub fn add_to_channel_account_list(
    funder_account: &Address,
    channel: &Address,
    invitee_did: &Address,
    inviter_did: &Address,
    inviter_authority: &Address,
    inviter_cek_account: &Address,
    invitee_cek_account: &Address,
) -> (accounts: Vec<AccountMeta>)
    ensures
        views(accounts@) == add_to_channel_accounts(
            funder_account@,
            channel@,
            invitee_did@,
            inviter_did@,
            inviter_authority@,
            inviter_cek_account@,
            invitee_cek_account@,
        ),
{
    let mut accounts: Vec<AccountMeta> = Vec::new();
    accounts.push(AccountMeta::new(*funder_account, true));
    accounts.push(AccountMeta::new_readonly(*invitee_did, false));
    accounts.push(AccountMeta::new_readonly(*inviter_did, false));
    accounts.push(AccountMeta::new_readonly(*inviter_authority, true));
    accounts.push(AccountMeta::new_readonly(*inviter_cek_account, false));
    accounts.push(AccountMeta::new(*invitee_cek_account, false));
    accounts.push(AccountMeta::new_readonly(*channel, false));
    accounts.push(AccountMeta::new_readonly(RENT_SYSVAR_ID, false));
    accounts.push(AccountMeta::new_readonly(SYSTEM_PROGRAM_ID, false));
    assert(views(accounts@) =~= add_to_channel_accounts(
        funder_account@,
        channel@,
        invitee_did@,
        inviter_did@,
        inviter_authority@,
        inviter_cek_account@,
        invitee_cek_account@,
    ));
    accounts
}

/// Create a `SolariumInstruction::AddToChannel` instruction
pub fn add_to_channel(
    program_id: &Address,
    funder_account: &Address,
    channel: &Address,
    invitee_did: &Address,
    inviter_did: &Address,
    inviter_authority: &Address,
    cek: EncryptedKeyData,
) -> (result: Option<Instruction>)
    ensures
        built_view(result) == match (
            program_address(cek_account_seeds(inviter_did@, channel@), program_id@),
            program_address(cek_account_seeds(invitee_did@, channel@), program_id@),
        ) {
            (Some((inviter_cek_account, _)), Some((invitee_cek_account, _))) => built(
                program_id@,
                InstructionView::AddToChannel { cek: cek@ },
                add_to_channel_accounts(
                    funder_account@,
                    channel@,
                    invitee_did@,
                    inviter_did@,
                    inviter_authority@,
                    inviter_cek_account,
                    invitee_cek_account,
                ),
            ),
            _ => None,
        },
{
    let (inviter_cek_account, _) = get_cek_account_address_with_seed(
        program_id,
        inviter_did,
        channel,
    )?;
    let (invitee_cek_account, _) = get_cek_account_address_with_seed(
        program_id,
        invitee_did,
        channel,
    )?;
    let accounts = add_to_channel_account_list(
        funder_account,
        channel,
        invitee_did,
        inviter_did,
        inviter_authority,
        &inviter_cek_account,
        &invitee_cek_account,
    );
    build(program_id, &SolariumInstruction::AddToChannel { cek }, accounts)
}

/// The accounts of the instructions that change a user details account.
pub open spec fn user_details_accounts(
    owner_did: Seq<u8>,
    owner_authority: Seq<u8>,
    owner_user_details_account: Seq<u8>,
) -> Seq<AccountMetaView> {
    seq![
        readonly(owner_did, false),
        readonly(owner_authority, true),
        writable(owner_user_details_account, false),
    ]
}

/// Lists the accounts of the instructions that change a user details account.
pub fn user_details_account_list(
    owner_did: &Address,
    owner_authority: &Address,
    owner_user_details_account: &Address,
) -> (accounts: Vec<AccountMeta>)
    ensures
        views(accounts@) == user_details_accounts(
            owner_did@,
            owner_authority@,
            owner_user_details_account@,
        ),
{
    let mut accounts: Vec<AccountMeta> = Vec::new();
    accounts.push(AccountMeta::new_readonly(*owner_did, false));
    accounts.push(AccountMeta::new_readonly(*owner_authority, true));
    accounts.push(AccountMeta::new(*owner_user_details_account, false));
    assert(views(accounts@) =~= user_details_accounts(
        owner_did@,
        owner_authority@,
        owner_user_details_account@,
    ));
    accounts
}

/// Create a `SolariumInstruction::AddEncryptedUserKey` instruction
pub fn add_encrypted_user_key(
    program_id: &Address,
    owner_did: &Address,
    owner_authority: &Address,
    key_data: EncryptedKeyData,
) -> (result: Option<Instruction>)
    ensures
        built_view(result) == match program_address(
            userdetails_account_seeds(owner_did@),
            program_id@,
        ) {
            Some((owner_user_details_account, bump)) => built(
                program_id@,
                InstructionView::AddEncryptedUserKey { key_data: key_data@ },
                user_details_accounts(owner_did@, owner_authority@, owner_user_details_account),
            ),
            None => None,
        },
{
    let (owner_user_details_account, _) = get_userdetails_account_address_with_seed(
        program_id,
        owner_did,
    )?;
    let accounts = user_details_account_list(
        owner_did,
        owner_authority,
        &owner_user_details_account,
    );
    build(program_id, &SolariumInstruction::AddEncryptedUserKey { key_data }, accounts)
}

/// Create a `SolariumInstruction::RemoveEncryptedUserKey` instruction
pub fn remove_encrypted_user_key(
    program_id: &Address,
    owner_did: &Address,
    owner_authority: &Address,
    kid: Kid,
) -> (result: Option<Instruction>)
    ensures
        built_view(result) == match program_address(
            userdetails_account_seeds(owner_did@),
            program_id@,
        ) {
            Some((owner_user_details_account, bump)) => built(
                program_id@,
                InstructionView::RemoveEncryptedUserKey { kid: kid@ },
                user_details_accounts(owner_did@, owner_authority@, owner_user_details_account),
            ),
            None => None,
        },
{
    let (owner_user_details_account, _) = get_userdetails_account_address_with_seed(
        program_id,
        owner_did,
    )?;
    let accounts = user_details_account_list(
        owner_did,
        owner_authority,
        &owner_user_details_account,
    );
    build(program_id, &SolariumInstruction::RemoveEncryptedUserKey { kid }, accounts)
}

/// The accounts of the instructions that create an account for a DID.
pub open spec fn creation_accounts(
    funder_account: Seq<u8>,
    owner_did: Seq<u8>,
    owner_authority: Seq<u8>,
    owner_account: Seq<u8>,
) -> Seq<AccountMetaView> {
    seq![
        writable(funder_account, true),
        readonly(owner_did, false),
        readonly(owner_authority, true),
        writable(owner_account, false),
        readonly(RENT_SYSVAR_ID@, false),
        readonly(SYSTEM_PROGRAM_ID@, false),
    ]
}

/// Lists the accounts of the instructions that create an account for a DID.
pub fn creation_account_list(
    funder_account: &Address,
    owner_did: &Address,
    owner_authority: &Address,
    owner_account: &Address,
) -> (accounts: Vec<AccountMeta>)
    ensures
        views(accounts@) == creation_accounts(
            funder_account@,
            owner_did@,
            owner_authority@,
            owner_account@,
        ),
{
    let mut accounts: Vec<AccountMeta> = Vec::new();
    accounts.push(AccountMeta::new(*funder_account, true));
    accounts.push(AccountMeta::new_readonly(*owner_did, false));
    accounts.push(AccountMeta::new_readonly(*owner_authority, true));
    accounts.push(AccountMeta::new(*owner_account, false));
    accounts.push(AccountMeta::new_readonly(RENT_SYSVAR_ID, false));
    accounts.push(AccountMeta::new_readonly(SYSTEM_PROGRAM_ID, false));
    assert(views(accounts@) =~= creation_accounts(
        funder_account@,
        owner_did@,
        owner_authority@,
        owner_account@,
    ));
    accounts
}

/// Create a `SolariumInstruction::CreateUserDetails` instruction
pub fn create_user_details(
    program_id: &Address,
    funder_account: &Address,
    owner_did: &Address,
    owner_authority: &Address,
    alias: String,
    size: u32,
    user_pub_key: UserPubKey,
    encrypted_user_private_key_data: Vec<EncryptedKeyData>,
) -> (result: Option<Instruction>)
    ensures
        built_view(result) == match program_address(
            userdetails_account_seeds(owner_did@),
            program_id@,
        ) {
            Some((owner_userdetails_account, bump)) => built(
                program_id@,
                InstructionView::CreateUserDetails {
                    alias: alias@,
                    address_book: Seq::empty(),
                    user_pub_key: user_pub_key@,
                    encrypted_user_private_key_data: views(encrypted_user_private_key_data@),
                    size,
                },
                creation_accounts(
                    funder_account@,
                    owner_did@,
                    owner_authority@,
                    owner_userdetails_account,
                ),
            ),
            None => None,
        },
{
    let (owner_userdetails_account, _) = get_userdetails_account_address_with_seed(
        program_id,
        owner_did,
    )?;
    let accounts = creation_account_list(
        funder_account,
        owner_did,
        owner_authority,
        &owner_userdetails_account,
    );
    build(
        program_id,
        &SolariumInstruction::CreateUserDetails {
            alias,
            address_book: String::new(),
            user_pub_key,
            encrypted_user_private_key_data,
            size,
        },
        accounts,
    )
}

/// Create a `SolariumInstruction::UpdateUserDetails` instruction
pub fn update_user_details(
    program_id: &Address,
    owner_did: &Address,
    owner_authority: &Address,
    alias: String,
    address_book: String,
) -> (result: Option<Instruction>)
    ensures
        built_view(result) == match program_address(
            userdetails_account_seeds(owner_did@),
            program_id@,
        ) {
            Some((owner_userdetails_account, bump)) => built(
                program_id@,
                InstructionView::UpdateUserDetails {
                    alias: alias@,
                    address_book: address_book@,
                },
                user_details_accounts(owner_did@, owner_authority@, owner_userdetails_account),
            ),
            None => None,
        },
{
    let (owner_userdetails_account, _) = get_userdetails_account_address_with_seed(
        program_id,
        owner_did,
    )?;
    let accounts = user_details_account_list(
        owner_did,
        owner_authority,
        &owner_userdetails_account,
    );
    build(program_id, &SolariumInstruction::UpdateUserDetails { alias, address_book }, accounts)
}

/// Create a `SolariumInstruction::CreateNotifications` instruction
pub fn create_notifications(
    program_id: &Address,
    funder_account: &Address,
    owner_did: &Address,
    owner_authority: &Address,
    size: u8,
) -> (result: Option<Instruction>)
    ensures
        built_view(result) == match program_address(
            notifications_account_seeds(owner_did@),
            program_id@,
        ) {
            Some((owner_notifications_account, bump)) => built(
                program_id@,
                InstructionView::CreateNotifications { size },
                creation_accounts(
                    funder_account@,
                    owner_did@,
                    owner_authority@,
                    owner_notifications_account,
                ),
            ),
            None => None,
        },
{
    let (owner_notifications_account, _) = get_notifications_account_address_with_seed(
        program_id,
        owner_did,
    )?;
    let accounts = creation_account_list(
        funder_account,
        owner_did,
        owner_authority,
        &owner_notifications_account,
    );
    build(program_id, &SolariumInstruction::CreateNotifications { size }, accounts)
}

/// The accounts of `AddNotification`.
pub open spec fn add_notification_accounts(
    owner_notifications_account: Seq<u8>,
    sender_did: Seq<u8>,
    sender_authority: Seq<u8>,
) -> Seq<AccountMetaView> {
    seq![
        writable(owner_notifications_account, false),
        readonly(sender_did, false),
        readonly(sender_authority, true),
    ]
}

/// Lists the accounts of `AddNotification`.
pub fn add_notification_account_list(
    owner_notifications_account: &Address,
    sender_did: &Address,
    sender_authority: &Address,
) -> (accounts: Vec<AccountMeta>)
    ensures
        views(accounts@) == add_notification_accounts(
            owner_notifications_account@,
            sender_did@,
            sender_authority@,
        ),
{
    let mut accounts: Vec<AccountMeta> = Vec::new();
    accounts.push(AccountMeta::new(*owner_notifications_account, false));
    accounts.push(AccountMeta::new_readonly(*sender_did, false));
    accounts.push(AccountMeta::new_readonly(*sender_authority, true));
    assert(views(accounts@) =~= add_notification_accounts(
        owner_notifications_account@,
        sender_did@,
        sender_authority@,
    ));
    accounts
}

/// Create a `SolariumInstruction::AddNotification` instruction
pub fn add_notification(
    program_id: &Address,
    notification_type: NotificationType,
    pubkey: &Address,
    owner_did: &Address,
    sender_did: &Address,
    sender_authority: &Address,
) -> (result: Option<Instruction>)
    ensures
        built_view(result) == match program_address(
            notifications_account_seeds(owner_did@),
            program_id@,
        ) {
            Some((owner_notifications_account, bump)) => built(
                program_id@,
                InstructionView::AddNotification { notification_type, pubkey: pubkey@ },
                add_notification_accounts(
                    owner_notifications_account,
                    sender_did@,
                    sender_authority@,
                ),
            ),
            None => None,
        },
{
    let (owner_notifications_account, _) = get_notifications_account_address_with_seed(
        program_id,
        owner_did,
    )?;
    let accounts = add_notification_account_list(
        &owner_notifications_account,
        sender_did,
        sender_authority,
    );
    build(
        program_id,
        &SolariumInstruction::AddNotification { notification_type, pubkey: *pubkey },
        accounts,
    )
}

} // verus!
