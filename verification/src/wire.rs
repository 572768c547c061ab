//! The byte layout of the values that records and instructions are made of,
//! which is that of Borsh: integers with the least significant byte first,
//! byte strings of a fixed length as they are, and text as its length in
//! bytes followed by its UTF-8 form.

use vstd::prelude::*;
use vstd::slice::*;
use vstd::utf8::*;

verus! {

/// The 64 bits that stand for a signed number.
pub open spec fn i64_bits(x: i64) -> u64 {
    if x >= 0 {
        x as u64
    } else {
        (x + 0x1_0000_0000_0000_0000) as u64
    }
}

/// The signed number that 64 bits stand for.
pub open spec fn bits_i64(bits: u64) -> i64 {
    if bits < 0x8000_0000_0000_0000 {
        bits as i64
    } else {
        (bits - 0x1_0000_0000_0000_0000) as i64
    }
}

/// The one byte of a number.
pub open spec fn ser_u8(x: u8) -> Seq<u8> {
    seq![x]
}

/// The four bytes of a number, the least significant first.
#[verifier::opaque]
pub open spec fn ser_u32(x: u32) -> Seq<u8> {
    seq![
        (x % 256) as u8,
        (x / 0x100 % 256) as u8,
        (x / 0x1_0000 % 256) as u8,
        (x / 0x100_0000 % 256) as u8,
    ]
}

/// The number that four bytes stand for, the least significant first.
#[verifier::opaque]
pub open spec fn le_u32(bytes: Seq<u8>) -> u32 {
    (bytes[0] + bytes[1] * 0x100 + bytes[2] * 0x1_0000 + bytes[3] * 0x100_0000) as u32
}

/// The eight bytes of a number, the least significant first.
#[verifier::opaque]
pub open spec fn ser_u64(x: u64) -> Seq<u8> {
    ser_u32((x % 0x1_0000_0000) as u32) + ser_u32((x / 0x1_0000_0000) as u32)
}

/// The number that eight bytes stand for, the least significant first.
#[verifier::opaque]
pub open spec fn le_u64(bytes: Seq<u8>) -> u64 {
    (le_u32(bytes.take(4)) + le_u32(bytes.skip(4)) * 0x1_0000_0000) as u64
}

/// The eight bytes of a signed number, the least significant first.
pub open spec fn ser_i64(x: i64) -> Seq<u8> {
    ser_u64(i64_bits(x))
}

/// Whether a text is short enough for its length to be written in 32 bits.
#[verifier::opaque]
pub open spec fn text_fits(text: Seq<char>) -> bool {
    encode_utf8(text).len() <= u32::MAX
}

/// The bytes of a text: the length of its UTF-8 form in 32 bits, then that form.
#[verifier::opaque]
pub open spec fn ser_text(text: Seq<char>) -> Seq<u8> {
    ser_u32(encode_utf8(text).len() as u32) + encode_utf8(text)
}

/// The number in the first byte of the input, and the rest of the input.
/// Like every parser here, it gives `None` where the input does not start
/// with such a value.
pub open spec fn parse_u8(input: Seq<u8>) -> Option<(u8, Seq<u8>)> {
    if input.len() >= 1 {
        Some((input[0], input.skip(1)))
    } else {
        None
    }
}

/// The number in the first four bytes of the input, and the rest of the input.
pub open spec fn parse_u32(input: Seq<u8>) -> Option<(u32, Seq<u8>)> {
    if input.len() >= 4 {
        Some((le_u32(input.take(4)), input.skip(4)))
    } else {
        None
    }
}

/// The signed number in the first eight bytes of the input, and the rest of the input.
pub open spec fn parse_i64(input: Seq<u8>) -> Option<(i64, Seq<u8>)> {
    if input.len() >= 8 {
        Some((bits_i64(le_u64(input.take(8))), input.skip(8)))
    } else {
        None
    }
}

/// The first `n` bytes of the input, and the rest of the input.
pub open spec fn parse_bytes(input: Seq<u8>, n: nat) -> Option<(Seq<u8>, Seq<u8>)> {
    if input.len() >= n {
        Some((input.take(n as int), input.skip(n as int)))
    } else {
        None
    }
}

/// The text at the front of the input, and the rest of the input: the length
/// in 32 bits, then as many bytes, which must be valid UTF-8.
#[verifier::opaque]
pub open spec fn parse_text(input: Seq<u8>) -> Option<(Seq<char>, Seq<u8>)> {
    match parse_u32(input) {
        Some((len, rest)) => if rest.len() >= len && valid_utf8(rest.take(len as int)) {
            Some((decode_utf8(rest.take(len as int)), rest.skip(len as int)))
        } else {
            None
        },
        None => None,
    }
}

/// A number is read back from its byte, whatever follows it.
pub proof fn lemma_parse_ser_u8(x: u8, tail: Seq<u8>)
    ensures
        parse_u8(ser_u8(x) + tail) == Some((x, tail)),
{
    assert((ser_u8(x) + tail).skip(1) =~= tail);
}

/// A number is read back from its four bytes, whatever follows them.
pub proof fn lemma_parse_ser_u32(x: u32, tail: Seq<u8>)
    ensures
        ser_u32(x).len() == 4,
        parse_u32(ser_u32(x) + tail) == Some((x, tail)),
{
    reveal(ser_u32);
    reveal(le_u32);
    assert((ser_u32(x) + tail).take(4) =~= ser_u32(x));
    assert((ser_u32(x) + tail).skip(4) =~= tail);
}

/// A signed number is read back from its eight bytes, whatever follows them.
pub proof fn lemma_parse_ser_i64(x: i64, tail: Seq<u8>)
    ensures
        ser_i64(x).len() == 8,
        parse_i64(ser_i64(x) + tail) == Some((x, tail)),
{
    reveal(ser_u64);
    reveal(le_u64);
    let bits = i64_bits(x);
    let low = (bits % 0x1_0000_0000) as u32;
    let high = (bits / 0x1_0000_0000) as u32;
    lemma_parse_ser_u32(low, ser_u32(high));
    lemma_parse_ser_u32(high, Seq::empty());
    assert(ser_u32(high) + Seq::empty() =~= ser_u32(high));
    assert(ser_i64(x).take(4) =~= (ser_u32(low) + ser_u32(high)).take(4));
    assert(ser_i64(x).skip(4) =~= ser_u32(high));
    assert(ser_u32(high).take(4) =~= ser_u32(high));
    assert((ser_i64(x) + tail).take(8) =~= ser_i64(x));
    assert((ser_i64(x) + tail).skip(8) =~= tail);
}

/// Bytes are read back as they are, whatever follows them.
pub proof fn lemma_parse_bytes(bytes: Seq<u8>, tail: Seq<u8>)
    ensures
        parse_bytes(bytes + tail, bytes.len()) == Some((bytes, tail)),
{
    assert((bytes + tail).take(bytes.len() as int) =~= bytes);
    assert((bytes + tail).skip(bytes.len() as int) =~= tail);
}

/// A text that fits is read back from its bytes, whatever follows them.
pub proof fn lemma_parse_ser_text(text: Seq<char>, tail: Seq<u8>)
    requires
        text_fits(text),
    ensures
        parse_text(ser_text(text) + tail) == Some((text, tail)),
{
    reveal(ser_text);
    reveal(parse_text);
    reveal(text_fits);
    let bytes = encode_utf8(text);
    let len = bytes.len() as u32;
    lemma_parse_ser_u32(len, bytes + tail);
    assert(ser_text(text) + tail =~= ser_u32(len) + (bytes + tail));
    lemma_parse_bytes(bytes, tail);
    encode_utf8_valid_utf8(text);
    encode_utf8_decode_utf8(text);
}

proof fn lemma_le_digits(b0: int, b1: int, b2: int, b3: int)
    requires
        0 <= b0 < 256,
        0 <= b1 < 256,
        0 <= b2 < 256,
        0 <= b3 < 256,
    ensures
        ({
            let v = b0 + b1 * 0x100 + b2 * 0x1_0000 + b3 * 0x100_0000;
            &&& 0 <= v < 0x1_0000_0000
            &&& v % 256 == b0
            &&& v / 0x100 % 256 == b1
            &&& v / 0x1_0000 % 256 == b2
            &&& v / 0x100_0000 % 256 == b3
        }),
{
}

/// Four bytes are the bytes of the number that they stand for.
pub proof fn lemma_ser_le_u32(bytes: Seq<u8>)
    requires
        bytes.len() == 4,
    ensures
        ser_u32(le_u32(bytes)) == bytes,
{
    reveal(ser_u32);
    reveal(le_u32);
    lemma_le_digits(bytes[0] as int, bytes[1] as int, bytes[2] as int, bytes[3] as int);
    let v = le_u32(bytes);
    assert(ser_u32(v)[0] == bytes[0]);
    assert(ser_u32(v)[1] == bytes[1]);
    assert(ser_u32(v)[2] == bytes[2]);
    assert(ser_u32(v)[3] == bytes[3]);
    assert(ser_u32(v) =~= bytes);
}

/// The number that is read is the one whose bytes the input starts with.
pub proof fn lemma_parsed_u32(input: Seq<u8>)
    ensures
        parse_u32(input) matches Some((value, rest)) ==> input == ser_u32(value) + rest,
{
    if input.len() >= 4 {
        lemma_ser_le_u32(input.take(4));
        assert(input =~= input.take(4) + input.skip(4));
    }
}

proof fn lemma_halves(low: int, high: int)
    requires
        0 <= low < 0x1_0000_0000,
        0 <= high < 0x1_0000_0000,
    ensures
        0 <= low + high * 0x1_0000_0000 < 0x1_0000_0000_0000_0000,
        (low + high * 0x1_0000_0000) % 0x1_0000_0000 == low,
        (low + high * 0x1_0000_0000) / 0x1_0000_0000 == high,
{
}

proof fn lemma_ser_le_u64(bytes: Seq<u8>)
    requires
        bytes.len() == 8,
    ensures
        ser_u64(le_u64(bytes)) == bytes,
{
    reveal(ser_u64);
    reveal(le_u64);
    let low = le_u32(bytes.take(4));
    let high = le_u32(bytes.skip(4));
    lemma_halves(low as int, high as int);
    assert(ser_u32(low) == bytes.take(4)) by {
        lemma_ser_le_u32(bytes.take(4));
    }
    assert(ser_u32(high) == bytes.skip(4)) by {
        lemma_ser_le_u32(bytes.skip(4));
    }
    assert(bytes.take(4) + bytes.skip(4) =~= bytes);
}

proof fn lemma_parsed_i64(input: Seq<u8>)
    ensures
        parse_i64(input) matches Some((value, rest)) ==> input == ser_i64(value) + rest,
{
    if input.len() >= 8 {
        let bits = le_u64(input.take(8));
        lemma_ser_le_u64(input.take(8));
        assert(i64_bits(bits_i64(bits)) == bits);
        assert(input =~= input.take(8) + input.skip(8));
    }
}

/// The text that is read fits, and the input starts with its bytes.
pub proof fn lemma_parsed_text(input: Seq<u8>)
    ensures
        parse_text(input) matches Some((value, rest)) ==> text_fits(value) && input == ser_text(
            value,
        ) + rest,
{
    reveal(ser_text);
    reveal(parse_text);
    reveal(text_fits);
    if let Some((len, rest)) = parse_u32(input) {
        lemma_parsed_u32(input);
        if rest.len() >= len && valid_utf8(rest.take(len as int)) {
            let bytes = rest.take(len as int);
            decode_utf8_encode_utf8(bytes);
            assert(rest =~= bytes + rest.skip(len as int));
            assert(ser_u32(len) + (bytes + rest.skip(len as int)) =~= (ser_u32(len) + bytes)
                + rest.skip(len as int));
        }
    }
}

/// The bytes that are read are those that the input starts with.
pub proof fn lemma_parsed_bytes(input: Seq<u8>, n: nat)
    ensures
        parse_bytes(input, n) matches Some((value, rest)) ==> value.len() == n && input == value
            + rest,
{
    if input.len() >= n {
        assert(input =~= input.take(n as int) + input.skip(n as int));
    }
}

/// What a parser reads is what the input starts with: the input is the bytes
/// of the value that was read, then the rest. A text that was read fits.
pub proof fn lemma_parsed(input: Seq<u8>, n: nat)
    ensures
        parse_u8(input) matches Some((value, rest)) ==> input == ser_u8(value) + rest,
        parse_u32(input) matches Some((value, rest)) ==> input == ser_u32(value) + rest,
        parse_i64(input) matches Some((value, rest)) ==> input == ser_i64(value) + rest,
        parse_bytes(input, n) matches Some((value, rest)) ==> value.len() == n && input == value
            + rest,
        parse_text(input) matches Some((value, rest)) ==> text_fits(value) && input == ser_text(
            value,
        ) + rest,
{
    if input.len() >= 1 {
        assert(input =~= ser_u8(input[0]) + input.skip(1));
    }
    if input.len() >= n {
        assert(input =~= input.take(n as int) + input.skip(n as int));
    }
    lemma_parsed_u32(input);
    lemma_parsed_i64(input);
    lemma_parsed_text(input);
}

/// Whether every byte is zero.
pub open spec fn all_zero(bytes: Seq<u8>) -> bool {
    forall|i: int| 0 <= i < bytes.len() ==> bytes[i] == 0u8
}

/// The given number of zero bytes.
pub open spec fn zeros(n: nat) -> Seq<u8> {
    Seq::new(n, |i: int| 0u8)
}

/// What the parsers read from zero bytes: zero, no text, zero bytes; and zero
/// bytes are left.
pub proof fn lemma_parse_zero(input: Seq<u8>, n: nat)
    requires
        all_zero(input),
    ensures
        parse_u8(input) matches Some((value, rest)) ==> value == 0 && all_zero(rest),
        parse_u32(input) matches Some((value, rest)) ==> value == 0 && all_zero(rest),
        parse_i64(input) matches Some((value, rest)) ==> value == 0 && all_zero(rest),
        parse_bytes(input, n) matches Some((value, rest)) ==> value == zeros(n) && all_zero(rest),
        parse_text(input) matches Some((value, rest)) ==> value == Seq::<char>::empty()
            && all_zero(rest),
{
    reveal(le_u32);
    reveal(le_u64);
    reveal(parse_text);
    if input.len() >= n {
        assert(input.take(n as int) =~= zeros(n));
    }
    if let Some((len, rest)) = parse_u32(input) {
        assert(len == 0);
        assert(rest.take(0) =~= Seq::<u8>::empty());
        assert(rest.skip(0) =~= rest);
        assert(decode_utf8(Seq::<u8>::empty()) =~= Seq::<char>::empty());
    }
}

/// Whether two byte strings of one length hold the same bytes.
pub fn same_bytes<const N: usize>(a: &[u8; N], b: &[u8; N]) -> (same: bool)
    ensures
        same == (a@ == b@),
{
    let mut i: usize = 0;
    while i < N
        invariant
            i <= N,
            forall|j: int| 0 <= j < i ==> a@[j] == b@[j],
        decreases N - i,
    {
        if a[i] != b[i] {
            return false;
        }
        i += 1;
    }
    assert(a@ =~= b@);
    true
}

/// `N` zero bytes.
pub fn zero_bytes<const N: usize>() -> (bytes: [u8; N])
    ensures
        bytes@ == zeros(N as nat),
{
    let mut bytes = [0u8; N];
    let mut i: usize = 0;
    while i < N
        invariant
            i <= N,
            forall|j: int| 0 <= j < i ==> bytes@[j] == 0u8,
        decreases N - i,
    {
        bytes[i] = 0;
        i += 1;
    }
    assert(bytes@ =~= zeros(N as nat));
    bytes
}

/// Whether every byte is zero.
pub fn is_all_zero(bytes: &[u8]) -> (zero: bool)
    ensures
        zero == all_zero(bytes@),
{
    let mut i: usize = 0;
    while i < bytes.len()
        invariant
            i <= bytes@.len(),
            forall|j: int| 0 <= j < i ==> bytes@[j] == 0u8,
        decreases bytes@.len() - i,
    {
        if bytes[i] != 0 {
            return false;
        }
        i += 1;
    }
    true
}

/// Calls `String::from_utf8`. The contract claims what its documentation says:
/// it succeeds on valid UTF-8 and on nothing else, and the string consists of
/// the bytes given.
#[verifier::external_body]
fn string_from_utf8(bytes: Vec<u8>) -> (text: Option<String>)
    ensures
        text is Some <==> valid_utf8(bytes@),
        text matches Some(s) ==> encode_utf8(s@) == bytes@,
{
    String::from_utf8(bytes).ok()
}

fn i64_to_bits(x: i64) -> (bits: u64)
    ensures
        bits == i64_bits(x),
{
    if x >= 0 {
        x as u64
    } else {
        ((x - i64::MIN) as u64) + 0x8000_0000_0000_0000u64
    }
}

fn bits_to_i64(bits: u64) -> (x: i64)
    ensures
        x == bits_i64(bits),
{
    if bits < 0x8000_0000_0000_0000u64 {
        bits as i64
    } else {
        ((bits - 0x8000_0000_0000_0000u64) as i64) + i64::MIN
    }
}

/// Reads the byte at `pos`, and says where the next value starts.
pub fn read_u8(data: &[u8], pos: usize) -> (got: Option<(u8, usize)>)
    ensures
        got is Some <==> pos <= data@.len() && parse_u8(data@.skip(pos as int)) is Some,
        got matches Some((value, next)) ==> next <= data@.len() && parse_u8(
            data@.skip(pos as int),
        ) == Some((value, data@.skip(next as int))),
{
    if pos > data.len() || data.len() - pos < 1 {
        return None;
    }
    assert(data@.skip(pos as int).skip(1) =~= data@.skip(pos + 1));
    Some((data[pos], pos + 1))
}

/// Reads the number in the four bytes at `pos`.
pub fn read_u32(data: &[u8], pos: usize) -> (got: Option<(u32, usize)>)
    ensures
        got is Some <==> pos <= data@.len() && parse_u32(data@.skip(pos as int)) is Some,
        got matches Some((value, next)) ==> next <= data@.len() && parse_u32(
            data@.skip(pos as int),
        ) == Some((value, data@.skip(next as int))),
{
    if pos > data.len() || data.len() - pos < 4 {
        return None;
    }
    let value = (data[pos] as u32) + (data[pos + 1] as u32) * 0x100 + (data[pos + 2] as u32)
        * 0x1_0000 + (data[pos + 3] as u32) * 0x100_0000;
    proof {
        reveal(le_u32);
    }
    assert(data@.skip(pos as int).skip(4) =~= data@.skip(pos + 4));
    Some((value, pos + 4))
}

/// Reads the signed number in the eight bytes at `pos`.
pub fn read_i64(data: &[u8], pos: usize) -> (got: Option<(i64, usize)>)
    ensures
        got is Some <==> pos <= data@.len() && parse_i64(data@.skip(pos as int)) is Some,
        got matches Some((value, next)) ==> next <= data@.len() && parse_i64(
            data@.skip(pos as int),
        ) == Some((value, data@.skip(next as int))),
{
    if pos > data.len() || data.len() - pos < 8 {
        return None;
    }
    let (low, middle) = match read_u32(data, pos) {
        Some(read) => read,
        None => {
            return None;
        },
    };
    let (high, next) = match read_u32(data, middle) {
        Some(read) => read,
        None => {
            return None;
        },
    };
    let bits = (low as u64) + (high as u64) * 0x1_0000_0000;
    proof {
        reveal(le_u64);
        let input = data@.skip(pos as int);
        assert(input.take(8).take(4) =~= input.take(4));
        assert(input.take(8).skip(4) =~= input.skip(4).take(4));
        assert(input.skip(4) =~= data@.skip(middle as int));
        assert(input.skip(8) =~= data@.skip(next as int));
    }
    Some((bits_to_i64(bits), next))
}

/// Reads the `N` bytes at `pos`.
pub fn read_array<const N: usize>(data: &[u8], pos: usize) -> (got: Option<([u8; N], usize)>)
    ensures
        got is Some <==> pos <= data@.len() && parse_bytes(data@.skip(pos as int), N as nat)
            is Some,
        got matches Some((value, next)) ==> next <= data@.len() && parse_bytes(
            data@.skip(pos as int),
            N as nat,
        ) == Some((value@, data@.skip(next as int))),
{
    if pos > data.len() || data.len() - pos < N {
        return None;
    }
    let total = data.len();
    let mut value = [0u8; N];
    let mut i: usize = 0;
    while i < N
        invariant
            i <= N,
            pos + N <= total == data@.len(),
            forall|j: int| 0 <= j < i ==> value@[j] == data@[pos + j],
        decreases N - i,
    {
        value[i] = data[pos + i];
        i += 1;
    }
    assert(data@.skip(pos as int).take(N as int) =~= value@);
    assert(data@.skip(pos as int).skip(N as int) =~= data@.skip(pos + N));
    Some((value, pos + N))
}

/// Reads the text at `pos`.
pub fn read_text(data: &[u8], pos: usize) -> (got: Option<(String, usize)>)
    ensures
        got is Some <==> pos <= data@.len() && parse_text(data@.skip(pos as int)) is Some,
        got matches Some((value, next)) ==> next <= data@.len() && parse_text(
            data@.skip(pos as int),
        ) == Some((value@, data@.skip(next as int))),
{
    proof {
        reveal(parse_text);
    }
    let (len, start) = match read_u32(data, pos) {
        Some(read) => read,
        None => {
            return None;
        },
    };
    if data.len() - start < len as usize {
        return None;
    }
    let end = start + len as usize;
    let bytes = slice_to_vec(slice_subrange(data, start, end));
    assert(data@.skip(start as int).take(len as int) =~= bytes@);
    assert(data@.skip(start as int).skip(len as int) =~= data@.skip(end as int));
    match string_from_utf8(bytes) {
        Some(text) => {
            proof {
                encode_utf8_decode_utf8(text@);
            }
            Some((text, end))
        },
        None => None,
    }
}

/// Appends the byte of a number.
pub fn write_u8(out: &mut Vec<u8>, x: u8)
    ensures
        final(out)@ == old(out)@ + ser_u8(x),
{
    out.push(x);
    assert(out@ =~= old(out)@ + ser_u8(x));
}

/// Appends bytes as they are.
pub fn write_bytes(out: &mut Vec<u8>, bytes: &[u8])
    ensures
        final(out)@ == old(out)@ + bytes@,
{
    let mut i: usize = 0;
    while i < bytes.len()
        invariant
            i <= bytes@.len(),
            out@ == old(out)@ + bytes@.take(i as int),
        decreases bytes@.len() - i,
    {
        out.push(bytes[i]);
        assert(bytes@.take(i + 1) =~= bytes@.take(i as int).push(bytes@[i as int]));
        i += 1;
    }
    assert(bytes@.take(bytes@.len() as int) =~= bytes@);
}

/// Appends the four bytes of a number.
pub fn write_u32(out: &mut Vec<u8>, x: u32)
    ensures
        final(out)@ == old(out)@ + ser_u32(x),
{
    out.push((x % 256) as u8);
    out.push((x / 0x100 % 256) as u8);
    out.push((x / 0x1_0000 % 256) as u8);
    out.push((x / 0x100_0000 % 256) as u8);
    proof {
        reveal(ser_u32);
    }
    assert(out@ =~= old(out)@ + ser_u32(x));
}

/// Appends the eight bytes of a signed number.
pub fn write_i64(out: &mut Vec<u8>, x: i64)
    ensures
        final(out)@ == old(out)@ + ser_i64(x),
{
    let bits = i64_to_bits(x);
    write_u32(out, (bits % 0x1_0000_0000) as u32);
    write_u32(out, (bits / 0x1_0000_0000) as u32);
    proof {
        reveal(ser_u64);
    }
    assert(out@ =~= old(out)@ + ser_i64(x));
}

/// Writes a text, unless it is too long for the layout.
pub fn write_text(out: &mut Vec<u8>, text: &str) -> (written: bool)
    ensures
        written == text_fits(text@),
        written ==> final(out)@ == old(out)@ + ser_text(text@),
        !written ==> final(out)@ == old(out)@,
{
    let bytes = text.as_bytes();
    proof {
        reveal(ser_text);
        reveal(text_fits);
    }
    if bytes.len() > u32::MAX as usize {
        return false;
    }
    write_u32(out, bytes.len() as u32);
    write_bytes(out, bytes);
    assert(out@ =~= old(out)@ + ser_text(text@));
    true
}

} // verus!
