//! Program state

use crate::address::Address;
pub use crate::address::{
    direct_channel_address_order, get_cek_account_address_with_seed,
    get_channel_address_with_seed, get_notifications_account_address_with_seed,
    get_userdetails_account_address_with_seed, CEK_ACCOUNT_ADDRESS_SEED, CHANNEL_ADDRESS_SEED,
    NOTIFICATIONS_ACCOUNT_ADDRESS_SEED, USERDETAILS_ACCOUNT_ADDRESS_SEED,
};
use crate::error::SolariumError;
use crate::wire::{same_bytes, zero_bytes, zeros};
use vstd::prelude::*;

verus! {

/// A type defining the public component of a user public key
pub type UserPubKey = [u8; 32];

/// A type defining a key ID
pub type Kid = [u8; 8];

/// The views of the items of a sequence, in the same order.
pub open spec fn views<T: View>(items: Seq<T>) -> Seq<T::V> {
    items.map_values(|item: T| item@)
}

/// A bounded log after one more entry: the entry goes to the end, and where
/// the log then holds more than `size` entries, its oldest entry leaves.
pub open spec fn push_bounded<T>(log: Seq<T>, entry: T, size: nat) -> Seq<T> {
    if log.len() + 1 > size {
        log.push(entry).drop_first()
    } else {
        log.push(entry)
    }
}

/// A bounded log after the entries were added one after the other.
pub open spec fn push_all<T>(log: Seq<T>, entries: Seq<T>, size: nat) -> Seq<T>
    decreases entries.len(),
{
    if entries.len() == 0 {
        log
    } else {
        push_all(push_bounded(log, entries[0], size), entries.drop_first(), size)
    }
}

/// The newest `size` entries of a log, or all of them where there are fewer.
pub open spec fn newest<T>(log: Seq<T>, size: nat) -> Seq<T> {
    if log.len() <= size {
        log
    } else {
        log.skip(log.len() - size)
    }
}

/// Adds an entry to a log that may hold `size` entries: the entry goes to the
/// end, and where the log then holds more than `size` entries, the oldest leaves.
pub fn push_into_deque<T>(vec: Vec<T>, entry: T, size: usize) -> (log: Vec<T>)
    ensures
        log@ == push_bounded(vec@, entry, size as nat),
{
    let mut log = vec;
    log.push(entry);
    if log.len() > size {
        log.remove(0);
        assert(log@ =~= vec@.push(entry).drop_first());
    }
    log
}

/// Adding entries one by one to a bounded log that is not over its bound
/// leaves the newest `size` of all the entries, oldest first: what is evicted
/// is evicted in the order in which it came.
pub proof fn lemma_bounded_eviction<T>(log: Seq<T>, entries: Seq<T>, size: nat)
    requires
        log.len() <= size,
    ensures
        push_all(log, entries, size) == newest(log + entries, size),
        push_all(log, entries, size).len() <= size,
    decreases entries.len(),
{
    if entries.len() == 0 {
        assert(log + entries =~= log);
    } else {
        let next = push_bounded(log, entries[0], size);
        let rest = entries.drop_first();
        lemma_bounded_eviction(next, rest, size);
        assert(log + entries =~= log.push(entries[0]) + rest);
        assert(newest(next + rest, size) =~= newest(log.push(entries[0]) + rest, size));
    }
}

/// A log that starts empty and gets at least as many entries as it may hold
/// ends up holding exactly `size` entries: the last `size` that it got, in
/// the order in which it got them.
pub proof fn lemma_full_log<T>(entries: Seq<T>, size: nat)
    requires
        entries.len() >= size,
    ensures
        push_all(Seq::empty(), entries, size).len() == size,
        push_all(Seq::empty(), entries, size) == entries.skip(entries.len() - size),
{
    lemma_bounded_eviction(Seq::<T>::empty(), entries, size);
    assert(Seq::<T>::empty() + entries =~= entries);
    assert(entries.skip(0) =~= entries);
}

/// Struct for the Message object
#[derive(Clone, Debug, PartialEq)]
pub struct Message {
    /// The unix timestamp at which the message was received
    pub timestamp: i64,
    /// The message sender DID
    pub sender: Address,
    /// The (typically encrypted) message content
    pub content: String,
}

/// A message as a value of sequences.
pub struct MessageView {
    pub timestamp: i64,
    pub sender: Seq<u8>,
    pub content: Seq<char>,
}

impl View for Message {
    type V = MessageView;

    open spec fn view(&self) -> MessageView {
        MessageView { timestamp: self.timestamp, sender: self.sender@, content: self.content@ }
    }
}

impl Message {
    /// Create a new message without a timestamp, for transport to the chain
    pub fn new(sender: Address, content: String) -> (message: Self)
        ensures
            message@ == (MessageView { timestamp: 0, sender: sender@, content: content@ }),
    {
        Self { timestamp: 0, sender, content }
    }

    /// Create a new message and set its timestamp
    pub fn new_with_timestamp(sender: Address, content: String, timestamp: i64) -> (message: Self)
        ensures
            message@ == (MessageView { timestamp, sender: sender@, content: content@ }),
    {
        Self { timestamp, sender, content }
    }
}

impl Default for Message {
    fn default() -> (message: Self)
        ensures
            message@ == (MessageView {
                timestamp: 0,
                sender: zeros(32),
                content: Seq::<char>::empty(),
            }),
    {
        let message = Self { timestamp: 0, sender: zero_bytes::<32>(), content: String::new() };
        message
    }
}

/// Structure of a channel
#[derive(Clone, Debug, PartialEq)]
pub struct ChannelData {
    /// The channel name
    pub name: String,
    /// All of the messages in the channel
    pub messages: Vec<Message>,
}

/// A channel as a value of sequences.
pub struct ChannelView {
    pub name: Seq<char>,
    pub messages: Seq<MessageView>,
}

impl View for ChannelData {
    type V = ChannelView;

    open spec fn view(&self) -> ChannelView {
        ChannelView { name: self.name@, messages: views(self.messages@) }
    }
}

impl ChannelView {
    /// The channel after a message was posted at the time `now`.
    pub open spec fn post(self, message: MessageView, now: i64) -> ChannelView {
        ChannelView {
            name: self.name,
            messages: push_bounded(
                self.messages,
                MessageView { timestamp: now, ..message },
                ChannelData::DEFAULT_SIZE as nat,
            ),
        }
    }

    /// Checks if a channel has been initialized
    pub open spec fn is_initialized(self) -> bool {
        self.name.len() > 0
    }

    /// Whether the log is within its bound.
    pub open spec fn well_formed(self) -> bool {
        self.messages.len() <= ChannelData::DEFAULT_SIZE
    }
}

impl ChannelData {
    /// Default message count
    pub const DEFAULT_SIZE: u8 = 8;

    /// Max message size
    pub const MESSAGE_SIZE: u32 = 512;

    /// Create a new channel
    pub fn new(name: String) -> (channel: Self)
        ensures
            channel@ == (ChannelView { name: name@, messages: Seq::empty() }),
            channel@.well_formed(),
    {
        let channel = Self {
            name,
            messages: Vec::with_capacity(ChannelData::DEFAULT_SIZE as usize),
        };
        assert(channel@.messages =~= Seq::empty());
        channel
    }

    /// Post a message to the channel. The message gets the timestamp `now`,
    /// whatever timestamp it came with.
    pub fn post(&mut self, message: Message, now: i64)
        ensures
            final(self)@ == old(self)@.post(message@, now),
            old(self)@.well_formed() ==> final(self)@.well_formed(),
    {
        let mut message = message;
        message.timestamp = now;
        let mut log: Vec<Message> = Vec::new();
        core::mem::swap(&mut log, &mut self.messages);
        self.messages = push_into_deque(log, message, ChannelData::DEFAULT_SIZE as usize);
        assert(self@.messages =~= old(self)@.post(message@, now).messages);
    }

    /// The maximum size of a channel in bytes
    pub fn size_bytes() -> (size: u64)
        ensures
            size == 4160,
    {
        ((ChannelData::DEFAULT_SIZE as u32) * ChannelData::MESSAGE_SIZE + 64) as u64
    }

    /// Checks if a channel has been initialized
    pub fn is_initialized(&self) -> (initialized: bool)
        ensures
            initialized == self@.is_initialized(),
    {
        !self.name.as_str().is_empty()
    }
}

impl Default for ChannelData {
    fn default() -> (channel: Self)
        ensures
            channel@ == (ChannelView { name: Seq::empty(), messages: Seq::empty() }),
    {
        let channel = Self { name: String::new(), messages: Vec::new() };
        assert(channel@.messages =~= Seq::empty());
        channel
    }
}

/// A Content Encryption Key for a channel encrypted with a key on the DID of the owner
/// encoded as base64
#[derive(Clone, Debug, PartialEq)]
pub struct CEKDataV1 {
    /// The header information for the CEK
    pub header: String,
    /// The identifier on the owner DID of the key that this CEK is encrypted with
    pub kid: String,
    /// The CEK itself, encrypted by the DID key
    pub encrypted_key: String,
}

/// A CEK as a value of sequences.
pub struct CEKDataV1View {
    pub header: Seq<char>,
    pub kid: Seq<char>,
    pub encrypted_key: Seq<char>,
}

impl View for CEKDataV1 {
    type V = CEKDataV1View;

    open spec fn view(&self) -> CEKDataV1View {
        CEKDataV1View {
            header: self.header@,
            kid: self.kid@,
            encrypted_key: self.encrypted_key@,
        }
    }
}

impl Default for CEKDataV1 {
    fn default() -> (cek: Self)
        ensures
            cek@ == (CEKDataV1View {
                header: Seq::empty(),
                kid: Seq::empty(),
                encrypted_key: Seq::empty(),
            }),
    {
        Self { header: String::new(), kid: String::new(), encrypted_key: String::new() }
    }
}

/// Represents a key encrypted with a different key
#[derive(Clone, Copy, Debug, PartialEq)]
pub struct EncryptedKeyData {
    /// The header information for the encrypted key
    pub header: [u8; 8],
    /// The identifier of the key that this key is encrypted with
    pub kid: Kid,
    /// The encrypted key itself
    pub encrypted_key: [u8; 104],
}

/// An encrypted key as a value of sequences.
pub struct EncryptedKeyView {
    pub header: Seq<u8>,
    pub kid: Seq<u8>,
    pub encrypted_key: Seq<u8>,
}

impl View for EncryptedKeyData {
    type V = EncryptedKeyView;

    open spec fn view(&self) -> EncryptedKeyView {
        EncryptedKeyView {
            header: self.header@,
            kid: self.kid@,
            encrypted_key: self.encrypted_key@,
        }
    }
}

impl EncryptedKeyView {
    /// Whether each part has the length that the record gives it.
    pub open spec fn well_formed(self) -> bool {
        self.header.len() == 8 && self.kid.len() == 8 && self.encrypted_key.len() == 104
    }
}

impl Default for EncryptedKeyData {
    fn default() -> (key: Self)
        ensures
            key@ == (EncryptedKeyView {
                header: zeros(8),
                kid: zeros(8),
                encrypted_key: zeros(104),
            }),
    {
        let key = Self {
            header: zero_bytes::<8>(),
            kid: zero_bytes::<8>(),
            encrypted_key: zero_bytes::<104>(),
        };
        key
    }
}

/// Defines a legacy CEK account structure, in which a
/// CEK account stores encrypted CEKs for a channel
/// encrypted for every key in the DID of the member of the channel
#[derive(Clone, Debug, PartialEq)]
pub struct CEKAccountDataV1 {
    /// The DID that can decrypt the CEKs in this account
    pub owner_did: Address,
    /// The channel that these CEKs decrypt
    pub channel: Address,
    /// The CEKs for the channel, one per key in the owner DID
    pub ceks: Vec<CEKDataV1>,
}

/// A cek account with a list of CEKs as a value of sequences.
pub struct CEKAccountV1View {
    pub owner_did: Seq<u8>,
    pub channel: Seq<u8>,
    pub ceks: Seq<CEKDataV1View>,
}

impl View for CEKAccountDataV1 {
    type V = CEKAccountV1View;

    open spec fn view(&self) -> CEKAccountV1View {
        CEKAccountV1View {
            owner_did: self.owner_did@,
            channel: self.channel@,
            ceks: views(self.ceks@),
        }
    }
}

impl CEKAccountV1View {
    /// Whether the account holds no more CEKs than it has room for.
    pub open spec fn well_formed(self) -> bool {
        self.ceks.len() <= CEKAccountDataV1::MAX_CEKS
    }

    /// Whether the CEK at `i` is the first one with the key ID `kid`.
    pub open spec fn first_with_kid(self, kid: Seq<char>, i: int) -> bool {
        &&& 0 <= i < self.ceks.len()
        &&& self.ceks[i].kid == kid
        &&& forall|j: int| 0 <= j < i ==> (#[trigger] self.ceks[j]).kid != kid
    }

    /// The position of the first CEK with the key ID `kid`, where there is one.
    pub open spec fn position_of(self, kid: Seq<char>) -> int {
        choose|i: int| self.first_with_kid(kid, i)
    }

    /// The account without the first CEK that has the key ID `kid`.
    pub open spec fn remove(self, kid: Seq<char>) -> CEKAccountV1View {
        CEKAccountV1View { ceks: self.ceks.remove(self.position_of(kid)), ..self }
    }

    /// Whether some CEK has the key ID `kid`.
    pub open spec fn has_kid(self, kid: Seq<char>) -> bool {
        exists|i: int| 0 <= i < self.ceks.len() && (#[trigger] self.ceks[i]).kid == kid
    }
}

impl CEKAccountDataV1 {
    /// The maximum number of CEKs that can be added to an individual CEK account
    pub const MAX_CEKS: u8 = 8;

    /// Create a new CEKAccount
    pub fn new(owner_did: Address, channel: Address) -> (account: Self)
        ensures
            account@ == (CEKAccountV1View {
                owner_did: owner_did@,
                channel: channel@,
                ceks: Seq::empty(),
            }),
            account@.well_formed(),
    {
        let account = Self {
            owner_did,
            channel,
            ceks: Vec::with_capacity(CEKAccountDataV1::MAX_CEKS as usize),
        };
        assert(account@.ceks =~= Seq::empty());
        account
    }

    /// Add a number of CEKs to the account at the same time, in their order,
    /// unless the account has no room for all of them: then none is added.
    pub fn add_all(&mut self, ceks: Vec<CEKDataV1>) -> (added: Result<(), SolariumError>)
        ensures
            old(self)@.ceks.len() + ceks@.len() <= CEKAccountDataV1::MAX_CEKS <==> added is Ok,
            added is Ok ==> final(self)@ == (CEKAccountV1View {
                ceks: old(self)@.ceks + views(ceks@),
                ..old(self)@
            }),
            added is Err ==> added == Err::<(), SolariumError>(SolariumError::Overflow)
                && *final(self) == *old(self),
    {
        let max = CEKAccountDataV1::MAX_CEKS as usize;
        if self.ceks.len() > max || ceks.len() > max - self.ceks.len() {
            return Err(SolariumError::Overflow);
        }
        let mut rest = ceks;
        self.ceks.append(&mut rest);
        assert(self@.ceks =~= old(self)@.ceks + views(ceks@));
        Ok(())
    }

    /// Add a new CEK to the account, unless the account is full.
    pub fn add(&mut self, cek: CEKDataV1) -> (added: Result<(), SolariumError>)
        ensures
            old(self)@.ceks.len() < CEKAccountDataV1::MAX_CEKS <==> added is Ok,
            added is Ok ==> final(self)@ == (CEKAccountV1View {
                ceks: old(self)@.ceks.push(cek@),
                ..old(self)@
            }),
            added is Err ==> added == Err::<(), SolariumError>(SolariumError::Overflow)
                && *final(self) == *old(self),
    {
        if self.ceks.len() >= CEKAccountDataV1::MAX_CEKS as usize {
            return Err(SolariumError::Overflow);
        }
        self.ceks.push(cek);
        assert(self@.ceks =~= old(self)@.ceks.push(cek@));
        Ok(())
    }

    /// Remove a CEK from the account by key ID: the first one that has it.
    /// The others stay, in their order.
    pub fn remove(&mut self, kid: String) -> (removed: Result<(), SolariumError>)
        ensures
            old(self)@.has_kid(kid@) <==> removed is Ok,
            removed is Ok ==> old(self)@.first_with_kid(kid@, old(self)@.position_of(kid@))
                && final(self)@ == old(self)@.remove(kid@),
            removed is Err ==> removed == Err::<(), SolariumError>(SolariumError::CEKNotFound)
                && *final(self) == *old(self),
    {
        let mut index: usize = 0;
        while index < self.ceks.len()
            invariant
                index <= self.ceks@.len(),
                *self == *old(self),
                forall|j: int| 0 <= j < index ==> (#[trigger] self@.ceks[j]).kid != kid@,
            decreases self.ceks@.len() - index,
        {
            if self.ceks[index].kid == kid {
                self.ceks.remove(index);
                proof {
                    let i = index as int;
                    assert(old(self)@.ceks[i].kid == kid@);
                    assert(old(self)@.first_with_kid(kid@, i));
                    let chosen = old(self)@.position_of(kid@);
                    assert(old(self)@.first_with_kid(kid@, chosen));
                    assert(chosen == i);
                    assert(self@.ceks =~= old(self)@.ceks.remove(i));
                }
                return Ok(());
            }
            index += 1;
        }
        Err(SolariumError::CEKNotFound)
    }

    /// Checks if a CEK account has been initialized: a CEK account always
    /// names its owner, so each one counts as initialized.
    pub fn is_initialized(&self) -> (initialized: bool)
        ensures
            initialized,
    {
        true
    }
}

impl Default for CEKAccountDataV1 {
    fn default() -> (account: Self)
        ensures
            account@ == (CEKAccountV1View {
                owner_did: zeros(32),
                channel: zeros(32),
                ceks: Seq::empty(),
            }),
    {
        let account = Self {
            owner_did: zero_bytes::<32>(),
            channel: zero_bytes::<32>(),
            ceks: Vec::new(),
        };
        assert(account@.ceks =~= Seq::empty());
        account
    }
}

/// Defines a CEK account structure, in which a
/// CEK account stores the CEK for a channel
/// encrypted by the user's "user key"
#[derive(Clone, Copy, Debug, PartialEq)]
pub struct CEKAccountDataV2 {
    /// The DID that can decrypt the CEK in this account
    pub owner_did: Address,
    /// The channel that this CEK decrypts
    pub channel: Address,
    /// The CEK for the channel, encrypted for the owner DID
    pub encrypted_cek: EncryptedKeyData,
}

/// A cek account as a value of sequences.
pub struct CEKAccountView {
    pub owner_did: Seq<u8>,
    pub channel: Seq<u8>,
    pub encrypted_cek: EncryptedKeyView,
}

impl View for CEKAccountDataV2 {
    type V = CEKAccountView;

    open spec fn view(&self) -> CEKAccountView {
        CEKAccountView {
            owner_did: self.owner_did@,
            channel: self.channel@,
            encrypted_cek: self.encrypted_cek@,
        }
    }
}

impl CEKAccountView {
    /// Whether each part has the length that the record gives it.
    pub open spec fn well_formed(self) -> bool {
        self.owner_did.len() == 32 && self.channel.len() == 32 && self.encrypted_cek.well_formed()
    }
}

impl CEKAccountDataV2 {
    /// The number of bytes that a CEK account takes on the ledger
    pub const SIZE_BYTES: u64 = 184;

    /// Create a new CEKAccount
    pub fn new(owner_did: Address, channel: Address, encrypted_cek: EncryptedKeyData) -> (account:
        Self)
        ensures
            account@ == (CEKAccountView {
                owner_did: owner_did@,
                channel: channel@,
                encrypted_cek: encrypted_cek@,
            }),
    {
        Self { owner_did, channel, encrypted_cek }
    }

    /// Checks if a CEK account has been initialized: a CEK account always
    /// names its owner, so each one counts as initialized.
    pub fn is_initialized(&self) -> (initialized: bool)
        ensures
            initialized,
    {
        true
    }
}

impl Default for CEKAccountDataV2 {
    fn default() -> (account: Self)
        ensures
            account@ == (CEKAccountView {
                owner_did: zeros(32),
                channel: zeros(32),
                encrypted_cek: EncryptedKeyView {
                    header: zeros(8),
                    kid: zeros(8),
                    encrypted_key: zeros(104),
                },
            }),
    {
        let account = Self {
            owner_did: zero_bytes::<32>(),
            channel: zero_bytes::<32>(),
            encrypted_cek: EncryptedKeyData::default(),
        };
        account
    }
}

/// Defines a UserDetails account structure
#[derive(Clone, Debug, PartialEq)]
pub struct UserDetails {
    /// The user's public alias
    pub alias: String,
    /// The user's encrypted address book
    pub address_book: String,
    /// The user private key, encrypted for each key in their DID
    pub encrypted_user_private_key_data: Vec<EncryptedKeyData>,
    /// The user public key
    pub user_public_key: UserPubKey,
}

/// User details as a value of sequences.
pub struct UserDetailsView {
    pub alias: Seq<char>,
    pub address_book: Seq<char>,
    pub encrypted_user_private_key_data: Seq<EncryptedKeyView>,
    pub user_public_key: Seq<u8>,
}

impl View for UserDetails {
    type V = UserDetailsView;

    open spec fn view(&self) -> UserDetailsView {
        UserDetailsView {
            alias: self.alias@,
            address_book: self.address_book@,
            encrypted_user_private_key_data: views(self.encrypted_user_private_key_data@),
            user_public_key: self.user_public_key@,
        }
    }
}

impl UserDetailsView {
    /// Checks if a UserDetails account has been initialized
    pub open spec fn is_initialized(self) -> bool {
        self.alias.len() > 0
    }

    /// Whether the key at `i` is the first one with the key ID `kid`.
    pub open spec fn first_with_kid(self, kid: Seq<u8>, i: int) -> bool {
        &&& 0 <= i < self.encrypted_user_private_key_data.len()
        &&& self.encrypted_user_private_key_data[i].kid == kid
        &&& forall|j: int|
            0 <= j < i ==> (#[trigger] self.encrypted_user_private_key_data[j]).kid != kid
    }

    /// The position of the first key with the key ID `kid`, where there is one.
    pub open spec fn position_of(self, kid: Seq<u8>) -> int {
        choose|i: int| self.first_with_kid(kid, i)
    }

    /// The account without the first key that has the key ID `kid`.
    pub open spec fn remove_key(self, kid: Seq<u8>) -> UserDetailsView {
        self.with_keys(self.encrypted_user_private_key_data.remove(self.position_of(kid)))
    }

    /// Whether some key has the key ID `kid`.
    pub open spec fn has_kid(self, kid: Seq<u8>) -> bool {
        exists|i: int|
            0 <= i < self.encrypted_user_private_key_data.len() && (
            #[trigger] self.encrypted_user_private_key_data[i]).kid == kid
    }

    /// The account with other keys in place of its own.
    pub open spec fn with_keys(self, keys: Seq<EncryptedKeyView>) -> UserDetailsView {
        UserDetailsView { encrypted_user_private_key_data: keys, ..self }
    }
}

impl UserDetails {
    /// The recommended default size of a userDetails account
    pub const DEFAULT_SIZE_BYTES: u32 = 3072;

    /// Add a number of encrypted keys to the account at the same time
    pub fn add_all(&mut self, encrypted_keys: Vec<EncryptedKeyData>)
        ensures
            final(self)@ == old(self)@.with_keys(
                old(self)@.encrypted_user_private_key_data + views(encrypted_keys@),
            ),
    {
        let mut rest = encrypted_keys;
        self.encrypted_user_private_key_data.append(&mut rest);
        assert(self@.encrypted_user_private_key_data =~= old(
            self,
        )@.encrypted_user_private_key_data + views(encrypted_keys@));
    }

    /// add a new encrypted key to the account
    pub fn add_key(&mut self, encrypted_key: EncryptedKeyData)
        ensures
            final(self)@ == old(self)@.with_keys(
                old(self)@.encrypted_user_private_key_data.push(encrypted_key@),
            ),
    {
        self.encrypted_user_private_key_data.push(encrypted_key);
        assert(self@.encrypted_user_private_key_data =~= old(
            self,
        )@.encrypted_user_private_key_data.push(encrypted_key@));
    }

    /// remove an encrypted key from the account by key ID: the first one
    /// that has it. The others stay, in their order.
    pub fn remove_key(&mut self, kid: Kid) -> (removed: Result<(), SolariumError>)
        ensures
            old(self)@.has_kid(kid@) <==> removed is Ok,
            removed is Ok ==> old(self)@.first_with_kid(kid@, old(self)@.position_of(kid@))
                && final(self)@ == old(self)@.remove_key(kid@),
            removed is Err ==> removed == Err::<(), SolariumError>(SolariumError::KeyNotFound)
                && *final(self) == *old(self),
    {
        let mut index: usize = 0;
        while index < self.encrypted_user_private_key_data.len()
            invariant
                index <= self.encrypted_user_private_key_data@.len(),
                *self == *old(self),
                forall|j: int|
                    0 <= j < index ==> (#[trigger] self@.encrypted_user_private_key_data[j]).kid
                        != kid@,
            decreases self.encrypted_user_private_key_data@.len() - index,
        {
            if same_bytes(&self.encrypted_user_private_key_data[index].kid, &kid) {
                self.encrypted_user_private_key_data.remove(index);
                proof {
                    let i = index as int;
                    assert(old(self)@.encrypted_user_private_key_data[i].kid == kid@);
                    assert(old(self)@.first_with_kid(kid@, i));
                    let chosen = old(self)@.position_of(kid@);
                    assert(old(self)@.first_with_kid(kid@, chosen));
                    assert(chosen == i);
                    assert(self@.encrypted_user_private_key_data =~= old(
                        self,
                    )@.encrypted_user_private_key_data.remove(i));
                }
                return Ok(());
            }
            index += 1;
        }
        Err(SolariumError::KeyNotFound)
    }

    /// Checks if a UserDetails account has been initialized
    pub fn is_initialized(&self) -> (initialized: bool)
        ensures
            initialized == self@.is_initialized(),
    {
        !self.alias.as_str().is_empty()
    }
}

impl Default for UserDetails {
    fn default() -> (details: Self)
        ensures
            details@ == (UserDetailsView {
                alias: Seq::empty(),
                address_book: Seq::empty(),
                encrypted_user_private_key_data: Seq::empty(),
                user_public_key: zeros(32),
            }),
    {
        let details = Self {
            alias: String::new(),
            address_book: String::new(),
            encrypted_user_private_key_data: Vec::new(),
            user_public_key: zero_bytes::<32>(),
        };
        assert(details@.encrypted_user_private_key_data =~= Seq::empty());
        details
    }
}

/// Struct for the NotificationType object
#[derive(Clone, Copy, Debug, PartialEq, Eq, Structural)]
pub enum NotificationType {
    /// The user has been added to a group channel. The pubkey is the channel address.
    GroupChannel,
    /// The user has been added to a direct channel.
    /// The pubkey is the address of the DID of the other user in the direct channel.
    DirectChannel,
}

impl Default for NotificationType {
    fn default() -> (kind: NotificationType)
        ensures
            kind == NotificationType::GroupChannel,
    {
        NotificationType::GroupChannel
    }
}

/// Struct for the Notification object
#[derive(Clone, Copy, Debug, PartialEq)]
pub struct Notification {
    /// The type of event that this notification is about
    pub notification_type: NotificationType,
    /// The public key relating to the notification.
    /// The key should be interpreted in relation to the notification type.
    pub pubkey: Address,
}

/// A notification as a value of sequences.
pub struct NotificationView {
    pub notification_type: NotificationType,
    pub pubkey: Seq<u8>,
}

impl View for Notification {
    type V = NotificationView;

    open spec fn view(&self) -> NotificationView {
        NotificationView { notification_type: self.notification_type, pubkey: self.pubkey@ }
    }
}

impl Default for Notification {
    fn default() -> (notification: Self)
        ensures
            notification@ == (NotificationView {
                notification_type: NotificationType::GroupChannel,
                pubkey: zeros(32),
            }),
    {
        let notification = Self {
            notification_type: NotificationType::GroupChannel,
            pubkey: zero_bytes::<32>(),
        };
        notification
    }
}

/// Defines a Notifications account structure
#[derive(Clone, Debug, PartialEq)]
pub struct Notifications {
    /// The circular buffer of notifications for the user
    pub notifications: Vec<Notification>,
    /// The amount of notifications this user can hold simultaneously
    pub size: u8,
}

/// A notifications account as a value of sequences.
pub struct NotificationsView {
    pub notifications: Seq<NotificationView>,
    pub size: u8,
}

impl View for Notifications {
    type V = NotificationsView;

    open spec fn view(&self) -> NotificationsView {
        NotificationsView { notifications: views(self.notifications@), size: self.size }
    }
}

impl NotificationsView {
    /// The account after one more notification.
    pub open spec fn add(self, notification: NotificationView) -> NotificationsView {
        NotificationsView {
            notifications: push_bounded(self.notifications, notification, self.size as nat),
            size: self.size,
        }
    }

    /// Checks if a Notifications account has been initialized
    pub open spec fn is_initialized(self) -> bool {
        self.size > 0
    }

    /// Whether the log is within its bound.
    pub open spec fn well_formed(self) -> bool {
        self.notifications.len() <= self.size
    }

    /// The bytes that the account takes when its log is full.
    pub open spec fn size_bytes(self) -> int {
        4 + 33 * self.size + 1
    }
}

impl Notifications {
    /// Default size of the notifications buffer
    pub const DEFAULT_SIZE: u8 = 8;

    /// Create a new notifications account
    pub fn new(size: u8) -> (account: Self)
        ensures
            account@ == (NotificationsView { notifications: Seq::empty(), size }),
            account@.well_formed(),
    {
        let account = Self { notifications: Vec::with_capacity(size as usize), size };
        assert(account@.notifications =~= Seq::empty());
        account
    }

    /// Add a notification to the account - pushing out an old one if necessary
    pub fn add(&mut self, notification: Notification)
        ensures
            final(self)@ == old(self)@.add(notification@),
            old(self)@.well_formed() ==> final(self)@.well_formed(),
    {
        let mut log: Vec<Notification> = Vec::new();
        core::mem::swap(&mut log, &mut self.notifications);
        self.notifications = push_into_deque(log, notification, self.size as usize);
        assert(self@.notifications =~= old(self)@.add(notification@).notifications);
    }

    /// Get the allocated size of the Notifications account in bytes: the
    /// room that a full log takes
    pub fn size_bytes(&self) -> (bytes: u64)
        ensures
            bytes == self@.size_bytes(),
    {
        4 + 33 * (self.size as u64) + 1
    }

    /// Checks if a Notifications account has been initialized
    pub fn is_initialized(&self) -> (initialized: bool)
        ensures
            initialized == self@.is_initialized(),
    {
        self.size > 0
    }
}

impl Default for Notifications {
    fn default() -> (account: Self)
        ensures
            account@ == (NotificationsView { notifications: Seq::empty(), size: 0 }),
    {
        let account = Self { notifications: Vec::new(), size: 0 };
        assert(account@.notifications =~= Seq::empty());
        account
    }
}

} // verus!
