//! The byte layout of the records that the program keeps in accounts

use crate::state::{
    views, CEKAccountDataV1, CEKAccountDataV2, CEKAccountV1View, CEKAccountView, CEKDataV1,
    CEKDataV1View, ChannelData, ChannelView, EncryptedKeyData, EncryptedKeyView, Message,
    MessageView, Notification, NotificationType, NotificationView, Notifications,
    NotificationsView, UserDetails, UserDetailsView,
};
use crate::wire::{
    all_zero, is_all_zero, lemma_parse_bytes, lemma_parse_ser_i64, lemma_parse_ser_text,
    lemma_parse_ser_u32, lemma_parse_ser_u8, lemma_parse_zero, lemma_parsed, parse_bytes, parse_i64,
    parse_text, parse_u32, parse_u8, read_array, read_i64, read_text, read_u32, read_u8, ser_i64,
    ser_text, ser_u32, ser_u8, text_fits, write_bytes, write_i64, write_text, write_u32,
    write_u8, zeros,
};
use vstd::prelude::*;

verus! {

/// A value with a layout in bytes. `ser` gives the bytes of a value, `parse`
/// reads a value from the front of an input and gives the rest of the input.
/// A value that `fits` is read back from its own bytes, whatever follows
/// them, and what is read is a value that fits, from its own bytes: the
/// layout gives each value one form.
pub trait Wire: View + Sized {
    spec fn fits(v: Self::V) -> bool;

    spec fn ser(v: Self::V) -> Seq<u8>;

    spec fn parse(input: Seq<u8>) -> Option<(Self::V, Seq<u8>)>;

    proof fn lemma_parse_ser(v: Self::V, tail: Seq<u8>)
        requires
            Self::fits(v),
        ensures
            Self::parse(Self::ser(v) + tail) == Some((v, tail)),
    ;

    proof fn lemma_ser_parse(input: Seq<u8>)
        ensures
            Self::parse(input) matches Some((v, rest)) ==> Self::fits(v) && input == Self::ser(v)
                + rest,
    ;

    /// What is read from zero bytes, where they are enough of them.
    spec fn blank() -> Self::V;

    proof fn lemma_parse_blank(input: Seq<u8>)
        requires
            all_zero(input),
        ensures
            Self::parse(input) matches Some((v, rest)) ==> v == Self::blank() && all_zero(rest),
    ;

    fn new_blank() -> (value: Self)
        ensures
            value@ == Self::blank(),
    ;

    /// Reads the value that starts at `pos`, and says where it ends.
    fn read(data: &[u8], pos: usize) -> (got: Option<(Self, usize)>)
        ensures
            got is Some <==> pos <= data@.len() && Self::parse(data@.skip(pos as int)) is Some,
            got matches Some((value, next)) ==> next <= data@.len() && Self::parse(
                data@.skip(pos as int),
            ) == Some((value@, data@.skip(next as int))),
    ;

    /// Appends the bytes of the value, unless the value does not fit the layout.
    fn write(&self, out: &mut Vec<u8>) -> (written: bool)
        ensures
            written == Self::fits(self@),
            written ==> final(out)@ == old(out)@ + Self::ser(self@),
    ;
}

/// The bytes of the items, one after the other.
pub open spec fn ser_items<T: Wire>(items: Seq<T::V>) -> Seq<u8>
    decreases items.len(),
{
    if items.len() == 0 {
        Seq::empty()
    } else {
        T::ser(items[0]) + ser_items::<T>(items.drop_first())
    }
}

/// Whether each of the items fits the layout.
pub open spec fn items_fit<T: Wire>(items: Seq<T::V>) -> bool {
    forall|i: int| 0 <= i < items.len() ==> T::fits(#[trigger] items[i])
}

/// Reads `count` items from the front of the input.
pub open spec fn parse_items<T: Wire>(input: Seq<u8>, count: nat) -> Option<(Seq<T::V>, Seq<u8>)>
    decreases count,
{
    if count == 0 {
        Some((Seq::empty(), input))
    } else {
        match T::parse(input) {
            Some((first, rest)) => after(seq![first], parse_items::<T>(rest, (count - 1) as nat)),
            None => None,
        }
    }
}

/// What was read, behind the items that were read before.
pub open spec fn after<V>(done: Seq<V>, parsed: Option<(Seq<V>, Seq<u8>)>) -> Option<
    (Seq<V>, Seq<u8>),
> {
    match parsed {
        Some((items, tail)) => Some((done + items, tail)),
        None => None,
    }
}

/// Whether a list fits the layout: its items fit, and their number can be
/// written in 32 bits.
pub open spec fn list_fits<T: Wire>(items: Seq<T::V>) -> bool {
    items.len() <= u32::MAX && items_fit::<T>(items)
}

/// The bytes of a list: the number of its items in 32 bits, then the items.
pub open spec fn ser_list<T: Wire>(items: Seq<T::V>) -> Seq<u8> {
    ser_u32(items.len() as u32) + ser_items::<T>(items)
}

/// The list at the front of the input, and the rest of the input.
pub open spec fn parse_list<T: Wire>(input: Seq<u8>) -> Option<(Seq<T::V>, Seq<u8>)> {
    match parse_u32(input) {
        Some((count, rest)) => parse_items::<T>(rest, count as nat),
        None => None,
    }
}

/// The bytes of items end with the bytes of the last item.
pub proof fn lemma_ser_items_push<T: Wire>(items: Seq<T::V>, last: T::V)
    ensures
        ser_items::<T>(items.push(last)) == ser_items::<T>(items) + T::ser(last),
    decreases items.len(),
{
    if items.len() == 0 {
        assert(items.push(last).drop_first() =~= Seq::empty());
        assert(ser_items::<T>(Seq::empty()) =~= Seq::empty());
        assert(ser_items::<T>(items.push(last)) =~= T::ser(last));
        assert(ser_items::<T>(items) + T::ser(last) =~= T::ser(last));
    } else {
        lemma_ser_items_push::<T>(items.drop_first(), last);
        assert(items.push(last).drop_first() =~= items.drop_first().push(last));
        assert(ser_items::<T>(items.push(last)) =~= ser_items::<T>(items) + T::ser(last));
    }
}

/// Items that fit are read back from their bytes, whatever follows them.
pub proof fn lemma_parse_ser_items<T: Wire>(items: Seq<T::V>, tail: Seq<u8>)
    requires
        items_fit::<T>(items),
    ensures
        parse_items::<T>(ser_items::<T>(items) + tail, items.len()) == Some((items, tail)),
    decreases items.len(),
{
    if items.len() == 0 {
        assert(ser_items::<T>(items) + tail =~= tail);
    } else {
        let rest = items.drop_first();
        let rest_bytes = ser_items::<T>(rest) + tail;
        T::lemma_parse_ser(items[0], rest_bytes);
        assert(ser_items::<T>(items) + tail =~= T::ser(items[0]) + rest_bytes);
        lemma_parse_ser_items::<T>(rest, tail);
        assert(seq![items[0]] + rest =~= items);
    }
}

/// A list that fits is read back from its bytes, whatever follows them.
pub proof fn lemma_parse_ser_list<T: Wire>(items: Seq<T::V>, tail: Seq<u8>)
    requires
        list_fits::<T>(items),
    ensures
        parse_list::<T>(ser_list::<T>(items) + tail) == Some((items, tail)),
{
    let body = ser_items::<T>(items) + tail;
    lemma_parse_ser_u32(items.len() as u32, body);
    assert(ser_list::<T>(items) + tail =~= ser_u32(items.len() as u32) + body);
    lemma_parse_ser_items::<T>(items, tail);
}

/// Items that are read fit, and the input starts with their bytes.
pub proof fn lemma_ser_parse_items<T: Wire>(input: Seq<u8>, count: nat)
    ensures
        parse_items::<T>(input, count) matches Some((items, rest)) ==> items.len() == count
            && items_fit::<T>(items) && input == ser_items::<T>(items) + rest,
    decreases count,
{
    if count == 0 {
        assert(ser_items::<T>(Seq::empty()) + input =~= input);
    } else if let Some((first, later)) = T::parse(input) {
        T::lemma_ser_parse(input);
        lemma_ser_parse_items::<T>(later, (count - 1) as nat);
        if let Some((others, rest)) = parse_items::<T>(later, (count - 1) as nat) {
            let items = seq![first] + others;
            assert(items.drop_first() =~= others);
            assert(items[0] == first);
            lemma_concat_assoc(T::ser(first), ser_items::<T>(others), rest);
        }
    }
}

/// A list that is read fits, and the input starts with its bytes.
pub proof fn lemma_ser_parse_list<T: Wire>(input: Seq<u8>)
    ensures
        parse_list::<T>(input) matches Some((items, rest)) ==> list_fits::<T>(items) && input
            == ser_list::<T>(items) + rest,
{
    lemma_parsed(input, 0);
    if let Some((count, later)) = parse_u32(input) {
        lemma_ser_parse_items::<T>(later, count as nat);
        if let Some((items, rest)) = parse_items::<T>(later, count as nat) {
            lemma_concat_assoc(ser_u32(count), ser_items::<T>(items), rest);
        }
    }
}

/// Reads the list at `pos`, and says where the next value starts.
pub fn read_list<T: Wire>(data: &[u8], pos: usize) -> (got: Option<(Vec<T>, usize)>)
    ensures
        got is Some <==> pos <= data@.len() && parse_list::<T>(data@.skip(pos as int)) is Some,
        got matches Some((items, next)) ==> next <= data@.len() && parse_list::<T>(
            data@.skip(pos as int),
        ) == Some((views(items@), data@.skip(next as int))),
{
    let (count, start) = match read_u32(data, pos) {
        Some(read) => read,
        None => {
            return None;
        },
    };
    let ghost whole = parse_items::<T>(data@.skip(start as int), count as nat);
    let mut items: Vec<T> = Vec::new();
    let mut at = start;
    let mut i: u32 = 0;
    assert(views(items@) =~= Seq::empty());
    assert(after(Seq::<T::V>::empty(), whole) == whole) by {
        if let Some((found, tail)) = whole {
            assert(Seq::<T::V>::empty() + found =~= found);
        }
    }
    while i < count
        invariant
            i <= count,
            at <= data@.len(),
            whole == parse_list::<T>(data@.skip(pos as int)),
            whole == after(
                views(items@),
                parse_items::<T>(data@.skip(at as int), (count - i) as nat),
            ),
        decreases count - i,
    {
        let ghost before = views(items@);
        match T::read(data, at) {
            Some((item, next)) => {
                proof {
                    let later = parse_items::<T>(data@.skip(next as int), (count - i - 1) as nat);
                    assert(views(items@.push(item)) =~= before.push(item@));
                    if let Some((found, tail)) = later {
                        assert(before + (seq![item@] + found) =~= before.push(item@) + found);
                    }
                }
                items.push(item);
                at = next;
                i += 1;
            },
            None => {
                assert(parse_items::<T>(data@.skip(at as int), (count - i) as nat) is None);
                return None;
            },
        }
    }
    assert(views(items@) + Seq::<T::V>::empty() =~= views(items@));
    Some((items, at))
}

/// Appends the bytes of a list, unless the list does not fit the layout.
pub fn write_list<T: Wire>(items: &Vec<T>, out: &mut Vec<u8>) -> (written: bool)
    ensures
        written == list_fits::<T>(views(items@)),
        written ==> final(out)@ == old(out)@ + ser_list::<T>(views(items@)),
{
    if items.len() > u32::MAX as usize {
        return false;
    }
    write_u32(out, items.len() as u32);
    let ghost all = views(items@);
    let mut i: usize = 0;
    assert(all.take(0) =~= Seq::empty());
    assert(out@ =~= old(out)@ + ser_u32(items@.len() as u32) + ser_items::<T>(all.take(0)));
    while i < items.len()
        invariant
            i <= items@.len(),
            all == views(items@),
            items_fit::<T>(all.take(i as int)),
            out@ == old(out)@ + ser_u32(items@.len() as u32) + ser_items::<T>(all.take(i as int)),
        decreases items@.len() - i,
    {
        if !items[i].write(out) {
            assert(!T::fits(all[i as int]));
            return false;
        }
        proof {
            lemma_ser_items_push::<T>(all.take(i as int), all[i as int]);
            assert(all.take(i + 1) =~= all.take(i as int).push(all[i as int]));
        }
        i += 1;
    }
    assert(all.take(items@.len() as int) =~= all);
    assert(out@ =~= old(out)@ + ser_list::<T>(all));
    true
}

/// Bytes that follow one another are the same however they are grouped.
pub proof fn lemma_concat_assoc(a: Seq<u8>, b: Seq<u8>, c: Seq<u8>)
    ensures
        (a + b) + c == a + (b + c),
{
    assert((a + b) + c =~= a + (b + c));
}

/// From zero bytes an empty list is read, and zero bytes are left.
pub proof fn lemma_parse_blank_list<T: Wire>(input: Seq<u8>)
    requires
        all_zero(input),
    ensures
        parse_list::<T>(input) matches Some((items, rest)) ==> items == Seq::<T::V>::empty()
            && all_zero(rest),
{
    lemma_parse_zero(input, 0);
}

impl Wire for Message {
    open spec fn fits(v: MessageView) -> bool {
        v.sender.len() == 32 && text_fits(v.content)
    }

    open spec fn ser(v: MessageView) -> Seq<u8> {
        ser_i64(v.timestamp) + v.sender + ser_text(v.content)
    }

    open spec fn parse(input: Seq<u8>) -> Option<(MessageView, Seq<u8>)> {
        match parse_i64(input) {
            Some((timestamp, input)) => match parse_bytes(input, 32) {
                Some((sender, input)) => match parse_text(input) {
                    Some((content, rest)) => Some(
                        (MessageView { timestamp, sender, content }, rest),
                    ),
                    None => None,
                },
                None => None,
            },
            None => None,
        }
    }

    proof fn lemma_parse_ser(v: MessageView, tail: Seq<u8>) {
        let from_content = ser_text(v.content) + tail;
        lemma_parse_ser_i64(v.timestamp, v.sender + from_content);
        lemma_parse_bytes(v.sender, from_content);
        lemma_parse_ser_text(v.content, tail);
        lemma_concat_assoc(ser_i64(v.timestamp) + v.sender, ser_text(v.content), tail);
        lemma_concat_assoc(ser_i64(v.timestamp), v.sender, from_content);
    }

    proof fn lemma_ser_parse(input: Seq<u8>) {
        lemma_parsed(input, 32);
        if let Some((timestamp, input1)) = parse_i64(input) {
            lemma_parsed(input1, 32);
            if let Some((sender, input2)) = parse_bytes(input1, 32) {
                lemma_parsed(input2, 32);
                if let Some((content, rest)) = parse_text(input2) {
                    lemma_concat_assoc(ser_i64(timestamp), sender, input2);
                    lemma_concat_assoc(ser_i64(timestamp) + sender, ser_text(content), rest);
                }
            }
        }
    }

    open spec fn blank() -> MessageView {
        MessageView { timestamp: 0, sender: zeros(32), content: Seq::empty() }
    }

    proof fn lemma_parse_blank(input: Seq<u8>) {
        lemma_parse_zero(input, 32);
        if let Some((timestamp, input)) = parse_i64(input) {
            lemma_parse_zero(input, 32);
            if let Some((sender, input)) = parse_bytes(input, 32) {
                lemma_parse_zero(input, 32);
            }
        }
    }

    fn new_blank() -> (value: Self) {
        Message::default()
    }

    fn read(data: &[u8], pos: usize) -> (got: Option<(Self, usize)>) {
        let (timestamp, at) = match read_i64(data, pos) {
            Some(read) => read,
            None => {
                return None;
            },
        };
        let (sender, at) = match read_array::<32>(data, at) {
            Some(read) => read,
            None => {
                return None;
            },
        };
        let (content, at) = match read_text(data, at) {
            Some(read) => read,
            None => {
                return None;
            },
        };
        Some((Message { timestamp, sender, content }, at))
    }

    fn write(&self, out: &mut Vec<u8>) -> (written: bool) {
        write_i64(out, self.timestamp);
        write_bytes(out, self.sender.as_slice());
        let written = write_text(out, self.content.as_str());
        assert(written ==> out@ =~= old(out)@ + Self::ser(self@));
        written
    }
}

impl Wire for EncryptedKeyData {
    open spec fn fits(v: EncryptedKeyView) -> bool {
        v.well_formed()
    }

    open spec fn ser(v: EncryptedKeyView) -> Seq<u8> {
        v.header + v.kid + v.encrypted_key
    }

    open spec fn parse(input: Seq<u8>) -> Option<(EncryptedKeyView, Seq<u8>)> {
        match parse_bytes(input, 8) {
            Some((header, input)) => match parse_bytes(input, 8) {
                Some((kid, input)) => match parse_bytes(input, 104) {
                    Some((encrypted_key, rest)) => Some(
                        (EncryptedKeyView { header, kid, encrypted_key }, rest),
                    ),
                    None => None,
                },
                None => None,
            },
            None => None,
        }
    }

    proof fn lemma_parse_ser(v: EncryptedKeyView, tail: Seq<u8>) {
        lemma_parse_bytes(v.header, v.kid + (v.encrypted_key + tail));
        lemma_parse_bytes(v.kid, v.encrypted_key + tail);
        lemma_parse_bytes(v.encrypted_key, tail);
        lemma_concat_assoc(v.header + v.kid, v.encrypted_key, tail);
        lemma_concat_assoc(v.header, v.kid, v.encrypted_key + tail);
    }

    proof fn lemma_ser_parse(input: Seq<u8>) {
        lemma_parsed(input, 8);
        if let Some((header, input1)) = parse_bytes(input, 8) {
            lemma_parsed(input1, 8);
            if let Some((kid, input2)) = parse_bytes(input1, 8) {
                lemma_parsed(input2, 104);
                if let Some((encrypted_key, rest)) = parse_bytes(input2, 104) {
                    lemma_concat_assoc(header, kid, input2);
                    lemma_concat_assoc(header + kid, encrypted_key, rest);
                }
            }
        }
    }

    open spec fn blank() -> EncryptedKeyView {
        EncryptedKeyView { header: zeros(8), kid: zeros(8), encrypted_key: zeros(104) }
    }

    proof fn lemma_parse_blank(input: Seq<u8>) {
        lemma_parse_zero(input, 8);
        if let Some((header, input)) = parse_bytes(input, 8) {
            lemma_parse_zero(input, 8);
            if let Some((kid, input)) = parse_bytes(input, 8) {
                lemma_parse_zero(input, 104);
            }
        }
    }

    fn new_blank() -> (value: Self) {
        EncryptedKeyData::default()
    }

    fn read(data: &[u8], pos: usize) -> (got: Option<(Self, usize)>) {
        let (header, at) = match read_array::<8>(data, pos) {
            Some(read) => read,
            None => {
                return None;
            },
        };
        let (kid, at) = match read_array::<8>(data, at) {
            Some(read) => read,
            None => {
                return None;
            },
        };
        let (encrypted_key, at) = match read_array::<104>(data, at) {
            Some(read) => read,
            None => {
                return None;
            },
        };
        Some((EncryptedKeyData { header, kid, encrypted_key }, at))
    }

    fn write(&self, out: &mut Vec<u8>) -> (written: bool) {
        write_bytes(out, self.header.as_slice());
        write_bytes(out, self.kid.as_slice());
        write_bytes(out, self.encrypted_key.as_slice());
        assert(out@ =~= old(out)@ + Self::ser(self@));
        true
    }
}

/// The byte that stands for a kind of notification.
pub open spec fn notification_tag(kind: NotificationType) -> u8 {
    match kind {
        NotificationType::GroupChannel => 0,
        NotificationType::DirectChannel => 1,
    }
}

impl Wire for Notification {
    open spec fn fits(v: NotificationView) -> bool {
        v.pubkey.len() == 32
    }

    open spec fn ser(v: NotificationView) -> Seq<u8> {
        ser_u8(notification_tag(v.notification_type)) + v.pubkey
    }

    open spec fn parse(input: Seq<u8>) -> Option<(NotificationView, Seq<u8>)> {
        match parse_u8(input) {
            Some((tag, input)) => match parse_bytes(input, 32) {
                Some((pubkey, rest)) => if tag == 0 {
                    Some(
                        (
                            NotificationView {
                                notification_type: NotificationType::GroupChannel,
                                pubkey,
                            },
                            rest,
                        ),
                    )
                } else if tag == 1 {
                    Some(
                        (
                            NotificationView {
                                notification_type: NotificationType::DirectChannel,
                                pubkey,
                            },
                            rest,
                        ),
                    )
                } else {
                    None
                },
                None => None,
            },
            None => None,
        }
    }

    proof fn lemma_parse_ser(v: NotificationView, tail: Seq<u8>) {
        lemma_parse_ser_u8(notification_tag(v.notification_type), v.pubkey + tail);
        lemma_parse_bytes(v.pubkey, tail);
        lemma_concat_assoc(ser_u8(notification_tag(v.notification_type)), v.pubkey, tail);
    }

    proof fn lemma_ser_parse(input: Seq<u8>) {
        lemma_parsed(input, 32);
        if let Some((tag, input1)) = parse_u8(input) {
            lemma_parsed(input1, 32);
            if let Some((pubkey, rest)) = parse_bytes(input1, 32) {
                lemma_concat_assoc(ser_u8(tag), pubkey, rest);
            }
        }
    }

    open spec fn blank() -> NotificationView {
        NotificationView { notification_type: NotificationType::GroupChannel, pubkey: zeros(32) }
    }

    proof fn lemma_parse_blank(input: Seq<u8>) {
        lemma_parse_zero(input, 32);
        if let Some((tag, input)) = parse_u8(input) {
            lemma_parse_zero(input, 32);
        }
    }

    fn new_blank() -> (value: Self) {
        Notification::default()
    }

    fn read(data: &[u8], pos: usize) -> (got: Option<(Self, usize)>) {
        let (tag, at) = match read_u8(data, pos) {
            Some(read) => read,
            None => {
                return None;
            },
        };
        let (pubkey, at) = match read_array::<32>(data, at) {
            Some(read) => read,
            None => {
                return None;
            },
        };
        if tag == 0 {
            Some((Notification { notification_type: NotificationType::GroupChannel, pubkey }, at))
        } else if tag == 1 {
            Some((Notification { notification_type: NotificationType::DirectChannel, pubkey }, at))
        } else {
            None
        }
    }

    fn write(&self, out: &mut Vec<u8>) -> (written: bool) {
        let tag: u8 = match self.notification_type {
            NotificationType::GroupChannel => 0,
            NotificationType::DirectChannel => 1,
        };
        write_u8(out, tag);
        write_bytes(out, self.pubkey.as_slice());
        assert(out@ =~= old(out)@ + Self::ser(self@));
        true
    }
}

impl Wire for CEKDataV1 {
    open spec fn fits(v: CEKDataV1View) -> bool {
        text_fits(v.header) && text_fits(v.kid) && text_fits(v.encrypted_key)
    }

    open spec fn ser(v: CEKDataV1View) -> Seq<u8> {
        ser_text(v.header) + ser_text(v.kid) + ser_text(v.encrypted_key)
    }

    open spec fn parse(input: Seq<u8>) -> Option<(CEKDataV1View, Seq<u8>)> {
        match parse_text(input) {
            Some((header, input)) => match parse_text(input) {
                Some((kid, input)) => match parse_text(input) {
                    Some((encrypted_key, rest)) => Some(
                        (CEKDataV1View { header, kid, encrypted_key }, rest),
                    ),
                    None => None,
                },
                None => None,
            },
            None => None,
        }
    }

    proof fn lemma_parse_ser(v: CEKDataV1View, tail: Seq<u8>) {
        let from_key = ser_text(v.encrypted_key) + tail;
        lemma_parse_ser_text(v.header, ser_text(v.kid) + from_key);
        lemma_parse_ser_text(v.kid, from_key);
        lemma_parse_ser_text(v.encrypted_key, tail);
        lemma_concat_assoc(ser_text(v.header) + ser_text(v.kid), ser_text(v.encrypted_key), tail);
        lemma_concat_assoc(ser_text(v.header), ser_text(v.kid), from_key);
    }

    proof fn lemma_ser_parse(input: Seq<u8>) {
        lemma_parsed(input, 0);
        if let Some((header, input1)) = parse_text(input) {
            lemma_parsed(input1, 0);
            if let Some((kid, input2)) = parse_text(input1) {
                lemma_parsed(input2, 0);
                if let Some((encrypted_key, rest)) = parse_text(input2) {
                    lemma_concat_assoc(ser_text(header), ser_text(kid), input2);
                    lemma_concat_assoc(
                        ser_text(header) + ser_text(kid),
                        ser_text(encrypted_key),
                        rest,
                    );
                }
            }
        }
    }

    open spec fn blank() -> CEKDataV1View {
        CEKDataV1View { header: Seq::empty(), kid: Seq::empty(), encrypted_key: Seq::empty() }
    }

    proof fn lemma_parse_blank(input: Seq<u8>) {
        lemma_parse_zero(input, 0);
        if let Some((header, input)) = parse_text(input) {
            lemma_parse_zero(input, 0);
            if let Some((kid, input)) = parse_text(input) {
                lemma_parse_zero(input, 0);
            }
        }
    }

    fn new_blank() -> (value: Self) {
        CEKDataV1::default()
    }

    fn read(data: &[u8], pos: usize) -> (got: Option<(Self, usize)>) {
        let (header, at) = match read_text(data, pos) {
            Some(read) => read,
            None => {
                return None;
            },
        };
        let (kid, at) = match read_text(data, at) {
            Some(read) => read,
            None => {
                return None;
            },
        };
        let (encrypted_key, at) = match read_text(data, at) {
            Some(read) => read,
            None => {
                return None;
            },
        };
        Some((CEKDataV1 { header, kid, encrypted_key }, at))
    }

    fn write(&self, out: &mut Vec<u8>) -> (written: bool) {
        if !write_text(out, self.header.as_str()) {
            return false;
        }
        if !write_text(out, self.kid.as_str()) {
            return false;
        }
        if !write_text(out, self.encrypted_key.as_str()) {
            return false;
        }
        assert(out@ =~= old(out)@ + Self::ser(self@));
        true
    }
}

impl Wire for ChannelData {
    open spec fn fits(v: ChannelView) -> bool {
        text_fits(v.name) && list_fits::<Message>(v.messages)
    }

    open spec fn ser(v: ChannelView) -> Seq<u8> {
        ser_text(v.name) + ser_list::<Message>(v.messages)
    }

    open spec fn parse(input: Seq<u8>) -> Option<(ChannelView, Seq<u8>)> {
        match parse_text(input) {
            Some((name, input)) => match parse_list::<Message>(input) {
                Some((messages, rest)) => Some((ChannelView { name, messages }, rest)),
                None => None,
            },
            None => None,
        }
    }

    proof fn lemma_parse_ser(v: ChannelView, tail: Seq<u8>) {
        lemma_parse_ser_text(v.name, ser_list::<Message>(v.messages) + tail);
        lemma_parse_ser_list::<Message>(v.messages, tail);
        lemma_concat_assoc(ser_text(v.name), ser_list::<Message>(v.messages), tail);
    }

    proof fn lemma_ser_parse(input: Seq<u8>) {
        lemma_parsed(input, 0);
        if let Some((name, input1)) = parse_text(input) {
            lemma_ser_parse_list::<Message>(input1);
            if let Some((messages, rest)) = parse_list::<Message>(input1) {
                lemma_concat_assoc(ser_text(name), ser_list::<Message>(messages), rest);
            }
        }
    }

    open spec fn blank() -> ChannelView {
        ChannelView { name: Seq::empty(), messages: Seq::empty() }
    }

    proof fn lemma_parse_blank(input: Seq<u8>) {
        lemma_parse_zero(input, 0);
        if let Some((name, input)) = parse_text(input) {
            lemma_parse_blank_list::<Message>(input);
        }
    }

    fn new_blank() -> (value: Self) {
        ChannelData::default()
    }

    fn read(data: &[u8], pos: usize) -> (got: Option<(Self, usize)>) {
        let (name, at) = match read_text(data, pos) {
            Some(read) => read,
            None => {
                return None;
            },
        };
        let (messages, at) = match read_list::<Message>(data, at) {
            Some(read) => read,
            None => {
                return None;
            },
        };
        Some((ChannelData { name, messages }, at))
    }

    fn write(&self, out: &mut Vec<u8>) -> (written: bool) {
        if !write_text(out, self.name.as_str()) {
            return false;
        }
        if !write_list::<Message>(&self.messages, out) {
            return false;
        }
        assert(out@ =~= old(out)@ + Self::ser(self@));
        true
    }
}

impl Wire for UserDetails {
    open spec fn fits(v: UserDetailsView) -> bool {
        &&& text_fits(v.alias)
        &&& text_fits(v.address_book)
        &&& list_fits::<EncryptedKeyData>(v.encrypted_user_private_key_data)
        &&& v.user_public_key.len() == 32
    }

    open spec fn ser(v: UserDetailsView) -> Seq<u8> {
        ser_text(v.alias) + ser_text(v.address_book) + ser_list::<EncryptedKeyData>(
            v.encrypted_user_private_key_data,
        ) + v.user_public_key
    }

    open spec fn parse(input: Seq<u8>) -> Option<(UserDetailsView, Seq<u8>)> {
        match parse_text(input) {
            Some((alias, input)) => match parse_text(input) {
                Some((address_book, input)) => match parse_list::<EncryptedKeyData>(input) {
                    Some((encrypted_user_private_key_data, input)) => match parse_bytes(
                        input,
                        32,
                    ) {
                        Some((user_public_key, rest)) => Some(
                            (
                                UserDetailsView {
                                    alias,
                                    address_book,
                                    encrypted_user_private_key_data,
                                    user_public_key,
                                },
                                rest,
                            ),
                        ),
                        None => None,
                    },
                    None => None,
                },
                None => None,
            },
            None => None,
        }
    }

    proof fn lemma_parse_ser(v: UserDetailsView, tail: Seq<u8>) {
        let from_key = v.user_public_key + tail;
        let from_list = ser_list::<EncryptedKeyData>(v.encrypted_user_private_key_data)
            + from_key;
        lemma_parse_ser_text(v.alias, ser_text(v.address_book) + from_list);
        lemma_parse_ser_text(v.address_book, from_list);
        lemma_parse_ser_list::<EncryptedKeyData>(v.encrypted_user_private_key_data, from_key);
        lemma_parse_bytes(v.user_public_key, tail);
        let keys = ser_list::<EncryptedKeyData>(v.encrypted_user_private_key_data);
        lemma_concat_assoc(
            ser_text(v.alias) + ser_text(v.address_book) + keys,
            v.user_public_key,
            tail,
        );
        lemma_concat_assoc(ser_text(v.alias) + ser_text(v.address_book), keys, from_key);
        lemma_concat_assoc(ser_text(v.alias), ser_text(v.address_book), from_list);
    }

    proof fn lemma_ser_parse(input: Seq<u8>) {
        lemma_parsed(input, 0);
        if let Some((alias, input1)) = parse_text(input) {
            lemma_parsed(input1, 0);
            if let Some((address_book, input2)) = parse_text(input1) {
                lemma_ser_parse_list::<EncryptedKeyData>(input2);
                if let Some((keys, input3)) = parse_list::<EncryptedKeyData>(input2) {
                    lemma_parsed(input3, 32);
                    if let Some((user_public_key, rest)) = parse_bytes(input3, 32) {
                        let list = ser_list::<EncryptedKeyData>(keys);
                        lemma_concat_assoc(ser_text(alias), ser_text(address_book), input2);
                        lemma_concat_assoc(
                            ser_text(alias) + ser_text(address_book),
                            list,
                            input3,
                        );
                        lemma_concat_assoc(
                            ser_text(alias) + ser_text(address_book) + list,
                            user_public_key,
                            rest,
                        );
                    }
                }
            }
        }
    }

    open spec fn blank() -> UserDetailsView {
        UserDetailsView {
            alias: Seq::empty(),
            address_book: Seq::empty(),
            encrypted_user_private_key_data: Seq::empty(),
            user_public_key: zeros(32),
        }
    }

    proof fn lemma_parse_blank(input: Seq<u8>) {
        lemma_parse_zero(input, 0);
        if let Some((alias, input)) = parse_text(input) {
            lemma_parse_zero(input, 0);
            if let Some((address_book, input)) = parse_text(input) {
                lemma_parse_blank_list::<EncryptedKeyData>(input);
                if let Some((keys, input)) = parse_list::<EncryptedKeyData>(input) {
                    lemma_parse_zero(input, 32);
                }
            }
        }
    }

    fn new_blank() -> (value: Self) {
        UserDetails::default()
    }

    fn read(data: &[u8], pos: usize) -> (got: Option<(Self, usize)>) {
        let (alias, at) = match read_text(data, pos) {
            Some(read) => read,
            None => {
                return None;
            },
        };
        let (address_book, at) = match read_text(data, at) {
            Some(read) => read,
            None => {
                return None;
            },
        };
        let (encrypted_user_private_key_data, at) = match read_list::<EncryptedKeyData>(data, at) {
            Some(read) => read,
            None => {
                return None;
            },
        };
        let (user_public_key, at) = match read_array::<32>(data, at) {
            Some(read) => read,
            None => {
                return None;
            },
        };
        Some(
            (
                UserDetails {
                    alias,
                    address_book,
                    encrypted_user_private_key_data,
                    user_public_key,
                },
                at,
            ),
        )
    }

    fn write(&self, out: &mut Vec<u8>) -> (written: bool) {
        if !write_text(out, self.alias.as_str()) {
            return false;
        }
        if !write_text(out, self.address_book.as_str()) {
            return false;
        }
        if !write_list::<EncryptedKeyData>(&self.encrypted_user_private_key_data, out) {
            return false;
        }
        write_bytes(out, self.user_public_key.as_slice());
        assert(out@ =~= old(out)@ + Self::ser(self@));
        true
    }
}

impl Wire for Notifications {
    open spec fn fits(v: NotificationsView) -> bool {
        list_fits::<Notification>(v.notifications)
    }

    open spec fn ser(v: NotificationsView) -> Seq<u8> {
        ser_list::<Notification>(v.notifications) + ser_u8(v.size)
    }

    open spec fn parse(input: Seq<u8>) -> Option<(NotificationsView, Seq<u8>)> {
        match parse_list::<Notification>(input) {
            Some((notifications, input)) => match parse_u8(input) {
                Some((size, rest)) => Some((NotificationsView { notifications, size }, rest)),
                None => None,
            },
            None => None,
        }
    }

    proof fn lemma_parse_ser(v: NotificationsView, tail: Seq<u8>) {
        lemma_parse_ser_list::<Notification>(v.notifications, ser_u8(v.size) + tail);
        lemma_parse_ser_u8(v.size, tail);
        lemma_concat_assoc(ser_list::<Notification>(v.notifications), ser_u8(v.size), tail);
    }

    proof fn lemma_ser_parse(input: Seq<u8>) {
        lemma_ser_parse_list::<Notification>(input);
        if let Some((notifications, input1)) = parse_list::<Notification>(input) {
            lemma_parsed(input1, 0);
            if let Some((size, rest)) = parse_u8(input1) {
                lemma_concat_assoc(ser_list::<Notification>(notifications), ser_u8(size), rest);
            }
        }
    }

    open spec fn blank() -> NotificationsView {
        NotificationsView { notifications: Seq::empty(), size: 0 }
    }

    proof fn lemma_parse_blank(input: Seq<u8>) {
        lemma_parse_blank_list::<Notification>(input);
        if let Some((notifications, input)) = parse_list::<Notification>(input) {
            lemma_parse_zero(input, 0);
        }
    }

    fn new_blank() -> (value: Self) {
        Notifications::default()
    }

    fn read(data: &[u8], pos: usize) -> (got: Option<(Self, usize)>) {
        let (notifications, at) = match read_list::<Notification>(data, pos) {
            Some(read) => read,
            None => {
                return None;
            },
        };
        let (size, at) = match read_u8(data, at) {
            Some(read) => read,
            None => {
                return None;
            },
        };
        Some((Notifications { notifications, size }, at))
    }

    fn write(&self, out: &mut Vec<u8>) -> (written: bool) {
        if !write_list::<Notification>(&self.notifications, out) {
            return false;
        }
        write_u8(out, self.size);
        assert(out@ =~= old(out)@ + Self::ser(self@));
        true
    }
}

impl Wire for CEKAccountDataV2 {
    open spec fn fits(v: CEKAccountView) -> bool {
        v.well_formed()
    }

    open spec fn ser(v: CEKAccountView) -> Seq<u8> {
        v.owner_did + v.channel + EncryptedKeyData::ser(v.encrypted_cek)
    }

    open spec fn parse(input: Seq<u8>) -> Option<(CEKAccountView, Seq<u8>)> {
        match parse_bytes(input, 32) {
            Some((owner_did, input)) => match parse_bytes(input, 32) {
                Some((channel, input)) => match EncryptedKeyData::parse(input) {
                    Some((encrypted_cek, rest)) => Some(
                        (CEKAccountView { owner_did, channel, encrypted_cek }, rest),
                    ),
                    None => None,
                },
                None => None,
            },
            None => None,
        }
    }

    proof fn lemma_parse_ser(v: CEKAccountView, tail: Seq<u8>) {
        let from_key = EncryptedKeyData::ser(v.encrypted_cek) + tail;
        lemma_parse_bytes(v.owner_did, v.channel + from_key);
        lemma_parse_bytes(v.channel, from_key);
        EncryptedKeyData::lemma_parse_ser(v.encrypted_cek, tail);
        lemma_concat_assoc(
            v.owner_did + v.channel,
            EncryptedKeyData::ser(v.encrypted_cek),
            tail,
        );
        lemma_concat_assoc(v.owner_did, v.channel, from_key);
    }

    proof fn lemma_ser_parse(input: Seq<u8>) {
        lemma_parsed(input, 32);
        if let Some((owner_did, input1)) = parse_bytes(input, 32) {
            lemma_parsed(input1, 32);
            if let Some((channel, input2)) = parse_bytes(input1, 32) {
                EncryptedKeyData::lemma_ser_parse(input2);
                if let Some((encrypted_cek, rest)) = EncryptedKeyData::parse(input2) {
                    lemma_concat_assoc(owner_did, channel, input2);
                    lemma_concat_assoc(
                        owner_did + channel,
                        EncryptedKeyData::ser(encrypted_cek),
                        rest,
                    );
                }
            }
        }
    }

    open spec fn blank() -> CEKAccountView {
        CEKAccountView {
            owner_did: zeros(32),
            channel: zeros(32),
            encrypted_cek: EncryptedKeyData::blank(),
        }
    }

    proof fn lemma_parse_blank(input: Seq<u8>) {
        lemma_parse_zero(input, 32);
        if let Some((owner_did, input)) = parse_bytes(input, 32) {
            lemma_parse_zero(input, 32);
            if let Some((channel, input)) = parse_bytes(input, 32) {
                EncryptedKeyData::lemma_parse_blank(input);
            }
        }
    }

    fn new_blank() -> (value: Self) {
        CEKAccountDataV2::default()
    }

    fn read(data: &[u8], pos: usize) -> (got: Option<(Self, usize)>) {
        let (owner_did, at) = match read_array::<32>(data, pos) {
            Some(read) => read,
            None => {
                return None;
            },
        };
        let (channel, at) = match read_array::<32>(data, at) {
            Some(read) => read,
            None => {
                return None;
            },
        };
        let (encrypted_cek, at) = match EncryptedKeyData::read(data, at) {
            Some(read) => read,
            None => {
                return None;
            },
        };
        Some((CEKAccountDataV2 { owner_did, channel, encrypted_cek }, at))
    }

    fn write(&self, out: &mut Vec<u8>) -> (written: bool) {
        write_bytes(out, self.owner_did.as_slice());
        write_bytes(out, self.channel.as_slice());
        let written = self.encrypted_cek.write(out);
        assert(out@ =~= old(out)@ + Self::ser(self@));
        written
    }
}

impl Wire for CEKAccountDataV1 {
    open spec fn fits(v: CEKAccountV1View) -> bool {
        v.owner_did.len() == 32 && v.channel.len() == 32 && list_fits::<CEKDataV1>(v.ceks)
    }

    open spec fn ser(v: CEKAccountV1View) -> Seq<u8> {
        v.owner_did + v.channel + ser_list::<CEKDataV1>(v.ceks)
    }

    open spec fn parse(input: Seq<u8>) -> Option<(CEKAccountV1View, Seq<u8>)> {
        match parse_bytes(input, 32) {
            Some((owner_did, input)) => match parse_bytes(input, 32) {
                Some((channel, input)) => match parse_list::<CEKDataV1>(input) {
                    Some((ceks, rest)) => Some(
                        (CEKAccountV1View { owner_did, channel, ceks }, rest),
                    ),
                    None => None,
                },
                None => None,
            },
            None => None,
        }
    }

    proof fn lemma_parse_ser(v: CEKAccountV1View, tail: Seq<u8>) {
        let from_list = ser_list::<CEKDataV1>(v.ceks) + tail;
        lemma_parse_bytes(v.owner_did, v.channel + from_list);
        lemma_parse_bytes(v.channel, from_list);
        lemma_parse_ser_list::<CEKDataV1>(v.ceks, tail);
        lemma_concat_assoc(v.owner_did + v.channel, ser_list::<CEKDataV1>(v.ceks), tail);
        lemma_concat_assoc(v.owner_did, v.channel, from_list);
    }

    proof fn lemma_ser_parse(input: Seq<u8>) {
        lemma_parsed(input, 32);
        if let Some((owner_did, input1)) = parse_bytes(input, 32) {
            lemma_parsed(input1, 32);
            if let Some((channel, input2)) = parse_bytes(input1, 32) {
                lemma_ser_parse_list::<CEKDataV1>(input2);
                if let Some((ceks, rest)) = parse_list::<CEKDataV1>(input2) {
                    lemma_concat_assoc(owner_did, channel, input2);
                    lemma_concat_assoc(owner_did + channel, ser_list::<CEKDataV1>(ceks), rest);
                }
            }
        }
    }

    open spec fn blank() -> CEKAccountV1View {
        CEKAccountV1View { owner_did: zeros(32), channel: zeros(32), ceks: Seq::empty() }
    }

    proof fn lemma_parse_blank(input: Seq<u8>) {
        lemma_parse_zero(input, 32);
        if let Some((owner_did, input)) = parse_bytes(input, 32) {
            lemma_parse_zero(input, 32);
            if let Some((channel, input)) = parse_bytes(input, 32) {
                lemma_parse_blank_list::<CEKDataV1>(input);
            }
        }
    }

    fn new_blank() -> (value: Self) {
        CEKAccountDataV1::default()
    }

    fn read(data: &[u8], pos: usize) -> (got: Option<(Self, usize)>) {
        let (owner_did, at) = match read_array::<32>(data, pos) {
            Some(read) => read,
            None => {
                return None;
            },
        };
        let (channel, at) = match read_array::<32>(data, at) {
            Some(read) => read,
            None => {
                return None;
            },
        };
        let (ceks, at) = match read_list::<CEKDataV1>(data, at) {
            Some(read) => read,
            None => {
                return None;
            },
        };
        Some((CEKAccountDataV1 { owner_did, channel, ceks }, at))
    }

    fn write(&self, out: &mut Vec<u8>) -> (written: bool) {
        write_bytes(out, self.owner_did.as_slice());
        write_bytes(out, self.channel.as_slice());
        if !write_list::<CEKDataV1>(&self.ceks, out) {
            return false;
        }
        assert(out@ =~= old(out)@ + Self::ser(self@));
        true
    }
}

/// The record that an account with the given data holds: what is read from
/// the front of the data, whatever follows it. Data that holds nothing but
/// zero bytes, however few, holds the blank record.
pub open spec fn record_of<T: Wire>(data: Seq<u8>) -> Option<T::V> {
    if all_zero(data) {
        Some(T::blank())
    } else {
        match T::parse(data) {
            Some((v, rest)) => Some(v),
            None => None,
        }
    }
}

/// The record that the data holds, if it holds one.
pub fn decode<T: Wire>(data: &[u8]) -> (record: Option<T>)
    ensures
        record is Some <==> record_of::<T>(data@) is Some,
        record matches Some(value) ==> record_of::<T>(data@) == Some(value@),
{
    if is_all_zero(data) {
        return Some(T::new_blank());
    }
    assert(data@.skip(0) =~= data@);
    match T::read(data, 0) {
        Some((value, next)) => Some(value),
        None => None,
    }
}

/// The bytes of a record, if the record fits the layout.
pub fn encode<T: Wire>(value: &T) -> (bytes: Option<Vec<u8>>)
    ensures
        bytes is Some <==> T::fits(value@),
        bytes matches Some(b) ==> b@ == T::ser(value@),
{
    let mut out: Vec<u8> = Vec::new();
    if value.write(&mut out) {
        assert(out@ =~= T::ser(value@));
        Some(out)
    } else {
        None
    }
}

/// An account holds the record whose bytes were written to the front of its
/// data, whatever the data holds behind them.
pub proof fn lemma_record_written<T: Wire>(v: T::V, tail: Seq<u8>)
    requires
        T::fits(v),
    ensures
        record_of::<T>(T::ser(v) + tail) == Some(v),
{
    T::lemma_parse_ser(v, tail);
    if all_zero(T::ser(v) + tail) {
        T::lemma_parse_blank(T::ser(v) + tail);
    }
}

/// A record that an account holds is the one that its data starts with: the
/// record fits the layout, and unless the data holds nothing but zero bytes,
/// its bytes stand at the front of the data.
pub proof fn lemma_record_read<T: Wire>(data: Seq<u8>)
    requires
        !all_zero(data),
    ensures
        record_of::<T>(data) matches Some(v) ==> T::fits(v) && T::ser(v).is_prefix_of(data),
{
    T::lemma_ser_parse(data);
}

} // verus!
