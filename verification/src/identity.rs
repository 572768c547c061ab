//! The question that the program asks of the identity program: whether a key
//! may act for a DID

use crate::address::Address;
use solana_program::account_info::AccountInfo;
use solana_program::pubkey::Pubkey;
use vstd::prelude::*;

verus! {

/// Whether the identity program accepts the key `signer` as an authority of
/// the DID whose account is owned by `did_owner` and holds `did_data`, given
/// whether the key signed the invocation.
pub uninterp spec fn did_authorizes(
    did_owner: Seq<u8>,
    did_data: Seq<u8>,
    signer: Seq<u8>,
    is_signer: bool,
) -> bool;

/// Calls `sol_did::validate_owner` on a DID account and one signer. The
/// contract claims that whether it accepts depends on the owner and the data
/// of the DID account, on the signer's key and on whether the signer signed,
/// and on nothing else, and gives that answer the name `did_authorizes`.
#[verifier::external_body]
pub(crate) fn validate_owner(
    did_owner: &Address,
    did_data: &Vec<u8>,
    signer: &Address,
    is_signer: bool,
) -> (accepted: bool)
    ensures
        accepted == did_authorizes(did_owner@, did_data@, signer@, is_signer),
{
    let (none, owner) = (Pubkey::default(), Pubkey::new_from_array(*did_owner));
    let key = Pubkey::new_from_array(*signer);
    let (mut funds, mut data) = (0u64, did_data.clone());
    let (mut no_funds, mut no_data) = (0u64, Vec::new());
    let did = AccountInfo::new(&none, false, false, &mut funds, &mut data, &owner, false, 0);
    let signer =
        AccountInfo::new(&key, is_signer, false, &mut no_funds, &mut no_data, &none, false, 0);
    sol_did::validate_owner(&did, &[&signer]).is_ok()
}

} // verus!
