//! Account addresses and their derivation from seeds

use crate::wire::same_bytes;
use solana_program::pubkey::Pubkey;
use vstd::prelude::*;
use vstd::slice::slice_to_vec;
use vstd::string::StringExecFns;

verus! {

/// The address of an account on the ledger.
pub type Address = [u8; 32];

/// The seed string used to derive a program address for a Solarium channel (for direct channels)
pub const CHANNEL_ADDRESS_SEED: [u8; 16] = [
    115, 111, 108, 97, 114, 105, 117, 109, 95, 99, 104, 97, 110, 110, 101, 108,
];

/// The seed string used to derive a program address for a Solarium cek account
pub const CEK_ACCOUNT_ADDRESS_SEED: [u8; 20] = [
    115, 111, 108, 97, 114, 105, 117, 109, 95, 99, 101, 107, 95, 97, 99, 99, 111, 117, 110, 116,
];

/// The seed string used to derive a program address for a Solarium user details account
pub const USERDETAILS_ACCOUNT_ADDRESS_SEED: [u8; 28] = [
    115, 111, 108, 97, 114, 105, 117, 109, 95, 117, 115, 101, 114, 100, 101, 116, 97, 105, 108,
    115, 95, 97, 99, 99, 111, 117, 110, 116,
];

/// The seed string used to derive a program address for a Solarium notifications account
pub const NOTIFICATIONS_ACCOUNT_ADDRESS_SEED: [u8; 30] = [
    115, 111, 108, 97, 114, 105, 117, 109, 95, 110, 111, 116, 105, 102, 105, 99, 97, 116, 105,
    111, 110, 115, 95, 97, 99, 99, 111, 117, 110, 116,
];

/// The address of the account in which the ledger keeps its rent rules
pub const RENT_SYSVAR_ID: [u8; 32] = [
    6, 167, 213, 23, 25, 44, 92, 81, 33, 140, 201, 76, 61, 74, 241, 127, 88, 218, 238, 8, 155,
    161, 253, 68, 227, 219, 217, 138, 0, 0, 0, 0,
];

/// The address of the system program, which creates accounts
pub const SYSTEM_PROGRAM_ID: [u8; 32] = [
    0, 0, 0, 0, 0, 0, 0, 0, 0, 0, 0, 0, 0, 0, 0, 0, 0, 0, 0, 0, 0, 0, 0, 0, 0, 0, 0, 0, 0, 0, 0, 0,
];

/// Whether `a` comes before `b` when the two are read byte by byte from the
/// front: at the first position where they differ, `a` holds the smaller byte.
pub open spec fn comes_before(a: Seq<u8>, b: Seq<u8>) -> bool {
    exists|i: int|
        0 <= i < a.len() && i < b.len() && #[trigger] a[i] < b[i] && a.take(i) == b.take(i)
}

/// Whether the two addresses are the same.
pub fn same_address(a: &Address, b: &Address) -> (same: bool)
    ensures
        same == (a@ == b@),
        same == (*a == *b),
{
    let same = same_bytes(a, b);
    assert(same ==> *a =~= *b);
    same
}

/// Whether `a` sorts before `b`.
pub fn address_before(a: &Address, b: &Address) -> (before: bool)
    ensures
        before == comes_before(a@, b@),
{
    let mut i: usize = 0;
    while i < 32
        invariant
            i <= 32,
            a@.take(i as int) == b@.take(i as int),
        decreases 32 - i,
    {
        if a[i] != b[i] {
            let before = a[i] < b[i];
            proof {
                if !before {
                    assert forall|k: int|
                        0 <= k < 32 && #[trigger] a@[k] < b@[k] implies a@.take(k) != b@.take(k) by {
                        if k < i {
                            assert(a@.take(i as int)[k] == b@.take(i as int)[k]);
                        } else if k > i {
                            assert(a@.take(k)[i as int] != b@.take(k)[i as int]);
                        }
                    }
                }
            }
            return before;
        }
        assert(a@.take(i + 1) =~= a@.take(i as int).push(a@[i as int]));
        assert(b@.take(i + 1) =~= b@.take(i as int).push(b@[i as int]));
        i += 1;
    }
    proof {
        assert(a@.take(32) =~= a@);
        assert(b@.take(32) =~= b@);
        assert forall|k: int| 0 <= k < 32 implies !(#[trigger] a@[k] < b@[k]) by {}
    }
    false
}

/// Of two sequences of one length, at most one comes before the other.
pub proof fn lemma_comes_before_asymmetric(a: Seq<u8>, b: Seq<u8>)
    requires
        comes_before(a, b),
    ensures
        !comes_before(b, a),
{
    let i = choose|i: int|
        0 <= i < a.len() && i < b.len() && #[trigger] a[i] < b[i] && a.take(i) == b.take(i);
    assert forall|k: int|
        0 <= k < b.len() && k < a.len() && #[trigger] b[k] < a[k] implies b.take(k) != a.take(k) by {
        if k < i {
            assert(a.take(i)[k] == b.take(i)[k]);
        } else if k > i {
            assert(a.take(k)[i] != b.take(k)[i]);
        }
    }
}

/// Two sequences of one length of which neither comes before the other are equal.
pub proof fn lemma_comes_before_total(a: Seq<u8>, b: Seq<u8>)
    requires
        a.len() == b.len(),
        !comes_before(a, b),
        !comes_before(b, a),
    ensures
        a == b,
{
    lemma_equal_up_to(a, b, a.len() as int);
    assert(a.take(a.len() as int) =~= a);
    assert(b.take(b.len() as int) =~= b);
}

proof fn lemma_equal_up_to(a: Seq<u8>, b: Seq<u8>, n: int)
    requires
        a.len() == b.len(),
        0 <= n <= a.len(),
        !comes_before(a, b),
        !comes_before(b, a),
    ensures
        a.take(n) == b.take(n),
    decreases n,
{
    if n == 0 {
        assert(a.take(0) =~= b.take(0));
    } else {
        lemma_equal_up_to(a, b, n - 1);
        let k = n - 1;
        if a[k] < b[k] {
            assert(comes_before(a, b));
        } else if b[k] < a[k] {
            assert(comes_before(b, a));
        }
        assert(a.take(n) =~= a.take(k).push(a[k]));
        assert(b.take(n) =~= b.take(k).push(b[k]));
    }
}

/// The two addresses, the one that sorts first in front.
pub open spec fn ordered_pair(did0: Seq<u8>, did1: Seq<u8>) -> (Seq<u8>, Seq<u8>) {
    if comes_before(did0, did1) {
        (did0, did1)
    } else {
        (did1, did0)
    }
}

/// To ensure predictable account addresses, sort the DIDs.
pub fn direct_channel_address_order(did0: &Address, did1: &Address) -> (pair: [Address; 2])
    ensures
        (pair[0]@, pair[1]@) == ordered_pair(did0@, did1@),
{
    if address_before(did0, did1) {
        [*did0, *did1]
    } else {
        [*did1, *did0]
    }
}

/// The order of the two DIDs does not depend on the order in which they are given.
pub proof fn lemma_ordered_pair_symmetric(did0: Seq<u8>, did1: Seq<u8>)
    requires
        did0.len() == did1.len(),
    ensures
        ordered_pair(did0, did1) == ordered_pair(did1, did0),
{
    if comes_before(did0, did1) {
        lemma_comes_before_asymmetric(did0, did1);
    } else if !comes_before(did1, did0) {
        lemma_comes_before_total(did0, did1);
    }
}

/// The address that the ledger derives for `program_id` from `seeds`, with the
/// bump seed that it appended to them; `None` where it derives no address.
pub uninterp spec fn program_address(seeds: Seq<Seq<u8>>, program_id: Seq<u8>) -> Option<
    (Seq<u8>, u8),
>;

/// The text form of an address, in the alphabet of 58 characters that the ledger's tools print.
pub uninterp spec fn base58_text(bytes: Seq<u8>) -> Seq<char>;

/// The seeds as sequences of bytes.
pub open spec fn seeds_view(seeds: Seq<Vec<u8>>) -> Seq<Seq<u8>> {
    seeds.map_values(|seed: Vec<u8>| seed@)
}

/// A derived address and its bump seed, the address as a sequence of bytes.
pub open spec fn derived_view(found: Option<(Address, u8)>) -> Option<(Seq<u8>, u8)> {
    match found {
        Some((address, bump)) => Some((address@, bump)),
        None => None,
    }
}

/// Calls `Pubkey::try_find_program_address`. The contract claims that what comes back
/// depends on the seeds and the program id alone, and gives it the name `program_address`.
#[verifier::external_body]
fn find_program_address(seeds: &Vec<Vec<u8>>, program_id: &Address) -> (found: Option<
    (Address, u8),
>)
    ensures
        derived_view(found) == program_address(seeds_view(seeds@), program_id@),
{
    let parts: Vec<&[u8]> = seeds.iter().map(|seed| seed.as_slice()).collect();
    Pubkey::try_find_program_address(&parts, &Pubkey::new_from_array(*program_id)).map(
        |(address, bump)| (address.to_bytes(), bump),
    )
}

/// Calls `Pubkey`'s `to_string`. The contract claims that the text depends on the
/// 32 bytes alone, and gives it the name `base58_text`.
#[verifier::external_body]
fn address_text(address: &Address) -> (text: String)
    ensures
        text@ == base58_text(address@),
{
    Pubkey::new_from_array(*address).to_string()
}

/// The seeds of the cek account of a DID in a channel.
pub open spec fn cek_account_seeds(did: Seq<u8>, channel: Seq<u8>) -> Seq<Seq<u8>> {
    seq![did, channel, CEK_ACCOUNT_ADDRESS_SEED@]
}

/// The seeds of the user details account of a DID.
pub open spec fn userdetails_account_seeds(did: Seq<u8>) -> Seq<Seq<u8>> {
    seq![did, USERDETAILS_ACCOUNT_ADDRESS_SEED@]
}

/// The seeds of the notifications account of a DID.
pub open spec fn notifications_account_seeds(did: Seq<u8>) -> Seq<Seq<u8>> {
    seq![did, NOTIFICATIONS_ACCOUNT_ADDRESS_SEED@]
}

/// The seeds of the direct channel between two DIDs, whichever is named first.
pub open spec fn channel_seeds(did0: Seq<u8>, did1: Seq<u8>) -> Seq<Seq<u8>> {
    let (first, second) = ordered_pair(did0, did1);
    seq![first, second, CHANNEL_ADDRESS_SEED@]
}

/// The name that a direct channel between the two DIDs gets.
pub open spec fn direct_channel_name_spec(creator: Seq<u8>, invitee: Seq<u8>) -> Seq<char> {
    base58_text(creator) + seq!['/'] + base58_text(invitee)
}

fn seed_of_address(address: &Address) -> (seed: Vec<u8>)
    ensures
        seed@ == address@,
{
    slice_to_vec(address.as_slice())
}

/// The seeds from which the cek account address of `did` in `channel` is derived.
pub fn cek_account_seed_list(did: &Address, channel: &Address) -> (seeds: Vec<Vec<u8>>)
    ensures
        seeds_view(seeds@) == cek_account_seeds(did@, channel@),
{
    let mut seeds: Vec<Vec<u8>> = Vec::new();
    seeds.push(seed_of_address(did));
    seeds.push(seed_of_address(channel));
    seeds.push(slice_to_vec(CEK_ACCOUNT_ADDRESS_SEED.as_slice()));
    assert(seeds_view(seeds@) =~= cek_account_seeds(did@, channel@));
    seeds
}

/// The seeds from which the user details account address of `did` is derived.
pub fn userdetails_account_seed_list(did: &Address) -> (seeds: Vec<Vec<u8>>)
    ensures
        seeds_view(seeds@) == userdetails_account_seeds(did@),
{
    let mut seeds: Vec<Vec<u8>> = Vec::new();
    seeds.push(seed_of_address(did));
    seeds.push(slice_to_vec(USERDETAILS_ACCOUNT_ADDRESS_SEED.as_slice()));
    assert(seeds_view(seeds@) =~= userdetails_account_seeds(did@));
    seeds
}

/// The seeds from which the notifications account address of `did` is derived.
pub fn notifications_account_seed_list(did: &Address) -> (seeds: Vec<Vec<u8>>)
    ensures
        seeds_view(seeds@) == notifications_account_seeds(did@),
{
    let mut seeds: Vec<Vec<u8>> = Vec::new();
    seeds.push(seed_of_address(did));
    seeds.push(slice_to_vec(NOTIFICATIONS_ACCOUNT_ADDRESS_SEED.as_slice()));
    assert(seeds_view(seeds@) =~= notifications_account_seeds(did@));
    seeds
}

/// The seeds from which the address of the direct channel between the two DIDs is derived.
pub fn channel_seed_list(did0: &Address, did1: &Address) -> (seeds: Vec<Vec<u8>>)
    ensures
        seeds_view(seeds@) == channel_seeds(did0@, did1@),
{
    let pair = direct_channel_address_order(did0, did1);
    let mut seeds: Vec<Vec<u8>> = Vec::new();
    seeds.push(seed_of_address(&pair[0]));
    seeds.push(seed_of_address(&pair[1]));
    seeds.push(slice_to_vec(CHANNEL_ADDRESS_SEED.as_slice()));
    assert(seeds_view(seeds@) =~= channel_seeds(did0@, did1@));
    seeds
}

/// Get program-derived cek account address for the did and channel
pub fn get_cek_account_address_with_seed(
    program_id: &Address,
    did: &Address,
    channel: &Address,
) -> (found: Option<(Address, u8)>)
    ensures
        derived_view(found) == program_address(cek_account_seeds(did@, channel@), program_id@),
{
    let seeds = cek_account_seed_list(did, channel);
    find_program_address(&seeds, program_id)
}

/// Get program-derived user details account address for the did
pub fn get_userdetails_account_address_with_seed(program_id: &Address, did: &Address) -> (found:
    Option<(Address, u8)>)
    ensures
        derived_view(found) == program_address(userdetails_account_seeds(did@), program_id@),
{
    let seeds = userdetails_account_seed_list(did);
    find_program_address(&seeds, program_id)
}

/// Get program-derived notifications account address for the did
pub fn get_notifications_account_address_with_seed(program_id: &Address, did: &Address) -> (found:
    Option<(Address, u8)>)
    ensures
        derived_view(found) == program_address(notifications_account_seeds(did@), program_id@),
{
    let seeds = notifications_account_seed_list(did);
    find_program_address(&seeds, program_id)
}

/// Get the program-derived channel account address for a direct channel
pub fn get_channel_address_with_seed(
    program_id: &Address,
    did0: &Address,
    did1: &Address,
) -> (found: Option<(Address, u8)>)
    ensures
        derived_view(found) == program_address(channel_seeds(did0@, did1@), program_id@),
{
    // To ensure predictable account addresses, sort the DIDs.
    let seeds = channel_seed_list(did0, did1);
    find_program_address(&seeds, program_id)
}

/// The seeds with which the program signs for a derived address: the seeds of
/// the derivation, then the bump seed.
pub fn signer_seeds(seeds: Vec<Vec<u8>>, bump: u8) -> (signed: Vec<Vec<u8>>)
    ensures
        seeds_view(signed@) == seeds_view(seeds@).push(seq![bump]),
{
    let mut signed = seeds;
    let mut last: Vec<u8> = Vec::new();
    last.push(bump);
    signed.push(last);
    assert(seeds_view(signed@) =~= seeds_view(seeds@).push(seq![bump]));
    signed
}

/// The name of a direct channel, given the text forms of the two DIDs: the
/// creator's, a stroke, the invitee's.
pub fn join_channel_name(creator: String, invitee: &str) -> (name: String)
    ensures
        name@ == creator@ + seq!['/'] + invitee@,
{
    let mut name = creator;
    proof {
        reveal_strlit("/");
    }
    name.append("/");
    name.append(invitee);
    assert("/"@ =~= seq!['/']);
    name
}

/// The name of the direct channel that `creator` opens with `invitee`.
pub fn direct_channel_name(creator: &Address, invitee: &Address) -> (name: String)
    ensures
        name@ == direct_channel_name_spec(creator@, invitee@),
{
    let first = address_text(creator);
    let second = address_text(invitee);
    join_channel_name(first, second.as_str())
}

/// Either participant of a direct channel derives the same address for it:
/// the derivation does not depend on which DID is named first.
pub proof fn lemma_channel_address_symmetric(program_id: Seq<u8>, did0: Seq<u8>, did1: Seq<u8>)
    requires
        did0.len() == did1.len(),
    ensures
        program_address(channel_seeds(did0, did1), program_id) == program_address(
            channel_seeds(did1, did0),
            program_id,
        ),
{
    lemma_ordered_pair_symmetric(did0, did1);
}

} // verus!
